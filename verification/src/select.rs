//! Selector: which files under the target tree the pipeline processes.
//!
//! A path is handled as its segments, from the walk root down to the
//! file name. A path is selected when some inner segment is `Textures`
//! and the file name carries a texture image extension, unless some
//! inner segment is `UI` (UI assets are excluded).

use vstd::prelude::*;

use crate::names::has_image_extension;
use crate::names::spec_has_image_ext;
use crate::names::str_eq;

verus! {

/// Some segment other than the first and the last equals `word`.
pub open spec fn spec_has_inner_segment(segs: Seq<Seq<char>>, word: Seq<char>) -> bool {
    exists|i: int| 1 <= i < segs.len() - 1 && segs[i] == word
}

/// The inclusion pattern for texture assets: a `Textures` segment
/// somewhere below the top, any depth further down, and a file name
/// with extension "png" or "jpg".
pub open spec fn spec_textures_match(segs: Seq<Seq<char>>) -> bool {
    spec_has_inner_segment(segs, "Textures"@) && spec_has_image_ext(segs.last())
}

/// The pattern for UI assets: a `UI` segment somewhere below the top.
pub open spec fn spec_ui_match(segs: Seq<Seq<char>>) -> bool {
    spec_has_inner_segment(segs, "UI"@)
}

/// A path is selected when it matches the texture pattern and is not a
/// UI asset.
pub open spec fn spec_selected(segs: Seq<Seq<char>>) -> bool {
    spec_textures_match(segs) && !spec_ui_match(segs)
}

/// The selected subsequence of `paths`, in order.
pub open spec fn spec_select(paths: Seq<Seq<Seq<char>>>) -> Seq<Seq<Seq<char>>> {
    paths.filter(|p: Seq<Seq<char>>| spec_selected(p))
}

fn has_inner_segment(segs: &Vec<String>, word: &str) -> (r: bool)
    ensures
        r == spec_has_inner_segment(segs.deep_view(), word@),
{
    let n = segs.len();
    if n < 3 {
        return false;
    }
    let mut i: usize = 1;
    while i < n - 1
        invariant
            n == segs@.len(),
            3 <= n,
            1 <= i <= n - 1,
            forall|j: int| 1 <= j < i ==> segs.deep_view()[j] != word@,
        decreases n - 1 - i,
    {
        if str_eq(segs[i].as_str(), word) {
            proof {
                assert(segs.deep_view()[i as int] == word@);
            }
            return true;
        }
        proof {
            assert(segs.deep_view()[i as int] == segs@[i as int]@);
        }
        i = i + 1;
    }
    false
}

/// Does this path fall under the pipeline's inclusion patterns?
pub fn is_selected(segs: &Vec<String>) -> (r: bool)
    ensures
        r == spec_selected(segs.deep_view()),
{
    let n = segs.len();
    if n == 0 {
        return false;
    }
    let has_tex = has_inner_segment(segs, "Textures");
    let image = has_image_extension(segs[n - 1].as_str());
    let has_ui = has_inner_segment(segs, "UI");
    proof {
        assert(segs.deep_view().last() == segs@[n - 1].deep_view());
    }
    has_tex && image && !has_ui
}

fn clone_segments(p: &Vec<String>) -> (r: Vec<String>)
    ensures
        r.deep_view() == p.deep_view(),
{
    let mut r: Vec<String> = Vec::new();
    let n = p.len();
    let mut i: usize = 0;
    while i < n
        invariant
            n == p@.len(),
            i <= n,
            r@.len() == i,
            forall|j: int| 0 <= j < i ==> r@[j] == p@[j],
        decreases n - i,
    {
        r.push(p[i].clone());
        i = i + 1;
    }
    proof {
        assert(r.deep_view() =~= p.deep_view());
    }
    r
}

/// Materialize the candidate list: keep exactly the selected paths,
/// in their traversal order.
pub fn select_candidates(paths: &Vec<Vec<String>>) -> (r: Vec<Vec<String>>)
    ensures
        r.deep_view() == spec_select(paths.deep_view()),
{
    let ghost orig: Seq<Seq<Seq<char>>> = paths.deep_view();
    let mut out: Vec<Vec<String>> = Vec::new();
    let n = paths.len();
    let mut i: usize = 0;
    while i < n
        invariant
            n == paths@.len(),
            orig == paths.deep_view(),
            i <= n,
            out.deep_view() =~= spec_select(orig.subrange(0, i as int)),
        decreases n - i,
    {
        let ghost out_before = out.deep_view();
        let ghost out_vec_before = out@;
        proof {
            assert(orig.len() == paths@.len());
            assert(orig[i as int] == paths@[i as int].deep_view());
        }
        let keep = is_selected(&paths[i]);
        if keep {
            let p = clone_segments(&paths[i]);
            out.push(p);
            proof {
                assert forall|j: int| 0 <= j < out.deep_view().len() implies out.deep_view()[j]
                    == out_before.push(orig[i as int])[j] by {
                    if j < out_vec_before.len() {
                        assert(out@[j] == out_vec_before[j]);
                    } else {
                        assert(out@[j] == out@[out@.len() - 1]);
                    }
                }
                assert(out.deep_view() =~= out_before.push(orig[i as int]));
            }
        }
        proof {
            reveal(Seq::filter);
            assert(orig.subrange(0, i + 1).drop_last() =~= orig.subrange(0, i as int));
            assert(orig.subrange(0, i + 1).last() == orig[i as int]);
            assert(out.deep_view() =~= spec_select(orig.subrange(0, i + 1)));
        }
        i = i + 1;
    }
    proof {
        assert(orig.subrange(0, n as int) =~= orig);
    }
    out
}

proof fn lemma_filter_contains<A>(s: Seq<A>, pred: spec_fn(A) -> bool, x: A)
    requires
        s.filter(pred).contains(x),
    ensures
        s.contains(x),
        pred(x),
    decreases s.len(),
{
    reveal(Seq::filter);
    if s.len() == 0 {
    } else {
        if pred(s.last()) && x == s.last() {
            assert(s[s.len() - 1] == x);
        } else {
            lemma_filter_contains(s.drop_last(), pred, x);
            let i = choose|i: int| 0 <= i < s.drop_last().len() && s.drop_last()[i] == x;
            assert(s[i] == x);
        }
    }
}

proof fn lemma_filter_no_duplicates<A>(s: Seq<A>, pred: spec_fn(A) -> bool)
    requires
        s.no_duplicates(),
    ensures
        s.filter(pred).no_duplicates(),
    decreases s.len(),
{
    reveal(Seq::filter);
    if s.len() == 0 {
    } else {
        assert(s.drop_last().no_duplicates());
        lemma_filter_no_duplicates(s.drop_last(), pred);
        if pred(s.last()) {
            let sub = s.drop_last().filter(pred);
            if sub.contains(s.last()) {
                lemma_filter_contains(s.drop_last(), pred, s.last());
                let i = choose|i: int|
                    0 <= i < s.drop_last().len() && s.drop_last()[i] == s.last();
                assert(s[i] == s[s.len() - 1]);
                assert(false);
            }
            assert(sub.push(s.last()).no_duplicates());
        }
    }
}

/// Law: the selector only returns paths inside the inclusion patterns:
/// each selected path has a `Textures` inner segment and a "png" or
/// "jpg" file name, and no `UI` inner segment; and each comes from the
/// input list.
pub proof fn lemma_select_sound(paths: Seq<Seq<Seq<char>>>, i: int)
    requires
        0 <= i < spec_select(paths).len(),
    ensures
        spec_textures_match(spec_select(paths)[i]),
        !spec_ui_match(spec_select(paths)[i]),
        paths.contains(spec_select(paths)[i]),
{
    broadcast use vstd::seq_lib::group_filter_ensures;

    let pred = |p: Seq<Seq<char>>| spec_selected(p);
    assert(pred(spec_select(paths)[i]));
    assert(spec_select(paths).contains(spec_select(paths)[i]));
    lemma_filter_contains(paths, pred, spec_select(paths)[i]);
}

/// Law: for a traversal without duplicate paths, the selector yields
/// no duplicate paths.
pub proof fn lemma_select_no_duplicates(paths: Seq<Seq<Seq<char>>>)
    requires
        paths.no_duplicates(),
    ensures
        spec_select(paths).no_duplicates(),
{
    lemma_filter_no_duplicates(paths, |p: Seq<Seq<char>>| spec_selected(p));
}

} // verus!
