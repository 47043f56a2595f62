//! Batch texture-processing engine: selects texture files under a mod
//! directory, and for each file decides and sequences the steps that
//! upscale small images and convert every image to the compressed
//! target format, replacing the original safely.

pub mod laws;
pub mod names;
pub mod pipeline;
pub mod report;
pub mod select;

use vstd::prelude::*;

verus! {

/// An image counts as small, and must be upscaled before conversion,
/// exactly when its shorter side is at or below the threshold.
pub open spec fn spec_is_small(width: u32, height: u32, threshold: u32) -> bool {
    (if width <= height {
        width
    } else {
        height
    }) <= threshold
}

/// Decide whether an image of the given dimensions must be upscaled
/// before conversion: it must when its shorter side is at or below the
/// threshold.
pub fn is_small(width: u32, height: u32, threshold: u32) -> (r: bool)
    ensures
        r == spec_is_small(width, height, threshold),
{
    let shorter: u32 = if width <= height {
        width
    } else {
        height
    };
    shorter <= threshold
}

} // verus!
