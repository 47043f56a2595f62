//! The per-file image pipeline as an explicit state machine.
//!
//! For one candidate file the machine decides, step by step, which
//! outside work must happen next: inspect the dimensions, run the
//! upscaler on a small image, run the converter, and perform the
//! safe-replace (rename the converted output into place, then remove
//! the intermediate file). The caller performs each emitted [`Action`]
//! and answers with the [`Event`] that reports how it went; the machine
//! never touches the filesystem itself.

use vstd::prelude::*;
use vstd::string::StringExecFns;

use crate::is_small;
use crate::names::spec_intermediate_name;
use crate::names::spec_join;
use crate::names::spec_replace_extension;
use crate::names::intermediate_name;
use crate::names::join;
use crate::names::replace_extension;
use crate::spec_is_small;

verus! {

/// The dimension thresholds a run may be configured with.
pub open spec fn valid_threshold(t: u32) -> bool {
    t == 64 || t == 128 || t == 256 || t == 512 || t == 1024 || t == 2048 || t == 4096
}

/// The upscale factors a run may be configured with.
pub open spec fn valid_factor(f: u32) -> bool {
    f == 2 || f == 4 || f == 8 || f == 16 || f == 32
}

/// The immutable parameters of one run: the dimension threshold below
/// which (inclusive) an image is upscaled, and the upscale factor.
#[derive(Clone, Copy, Debug)]
pub struct RunConfig {
    pub threshold: u32,
    pub factor: u32,
}

impl RunConfig {
    /// A well-formed configuration draws both parameters from their
    /// fixed enumerated sets.
    pub open spec fn wf(&self) -> bool {
        valid_threshold(self.threshold) && valid_factor(self.factor)
    }

    /// Build a configuration; rejected exactly when either parameter
    /// lies outside its enumerated set.
    pub fn new(threshold: u32, factor: u32) -> (r: Option<RunConfig>)
        ensures
            r is Some <==> (valid_threshold(threshold) && valid_factor(factor)),
            r matches Some(c) ==> c.threshold == threshold && c.factor == factor && c.wf(),
    {
        let t_ok = threshold == 64 || threshold == 128 || threshold == 256 || threshold == 512
            || threshold == 1024 || threshold == 2048 || threshold == 4096;
        let f_ok = factor == 2 || factor == 4 || factor == 8 || factor == 16 || factor == 32;
        if t_ok && f_ok {
            Some(RunConfig { threshold, factor })
        } else {
            None
        }
    }
}

/// One file selected for processing: its parent directory path and its
/// file name.
#[derive(Clone, Debug)]
pub struct Candidate {
    pub dir: String,
    pub name: String,
}

/// The mathematical model of a [`Candidate`].
pub struct CandidateV {
    pub dir: Seq<char>,
    pub name: Seq<char>,
}

impl View for Candidate {
    type V = CandidateV;

    open spec fn view(&self) -> CandidateV {
        CandidateV { dir: self.dir@, name: self.name@ }
    }
}

impl CandidateV {
    /// The candidate's own path.
    pub open spec fn path(self) -> Seq<char> {
        spec_join(self.dir, self.name)
    }

    /// The name of the intermediate file the upscaler writes.
    pub open spec fn intermediate_name(self) -> Seq<char> {
        spec_intermediate_name(self.name)
    }

    /// The path of the intermediate file.
    pub open spec fn intermediate_path(self) -> Seq<char> {
        spec_join(self.dir, self.intermediate_name())
    }

    /// The name the converter gives its output for the intermediate
    /// file: the intermediate name with the converted extension.
    pub open spec fn converted_intermediate_name(self) -> Seq<char> {
        spec_replace_extension(self.intermediate_name(), "dds"@)
    }

    /// The path of the converter's output for the intermediate file.
    pub open spec fn converted_intermediate_path(self) -> Seq<char> {
        spec_join(self.dir, self.converted_intermediate_name())
    }

    /// The final name: the original name with the converted extension.
    pub open spec fn final_name(self) -> Seq<char> {
        spec_replace_extension(self.name, "dds"@)
    }

    /// The path of the final converted file.
    pub open spec fn final_path(self) -> Seq<char> {
        spec_join(self.dir, self.final_name())
    }
}

/// The two outside tools the pipeline invokes.
#[derive(PartialEq, Eq, Structural, Clone, Copy, Debug)]
pub enum Tool {
    Upscaler,
    Converter,
}

/// The two filesystem operations of the safe-replace.
#[derive(PartialEq, Eq, Structural, Clone, Copy, Debug)]
pub enum FsOp {
    Rename,
    Remove,
}

/// Why one file's pipeline failed.
#[derive(Clone, Debug, PartialEq)]
pub enum PipelineError {
    /// The file could not be opened or decoded as an image.
    UnreadableImage { detail: String },
    /// An outside tool exited with failure; its diagnostic is kept.
    ExternalToolFailed { tool: Tool, stderr: String },
    /// A rename or remove of the safe-replace failed.
    FilesystemOpError { op: FsOp, detail: String },
}

/// The mathematical model of a [`PipelineError`].
pub enum PipelineErrorV {
    UnreadableImage { detail: Seq<char> },
    ExternalToolFailed { tool: Tool, stderr: Seq<char> },
    FilesystemOpError { op: FsOp, detail: Seq<char> },
}

impl View for PipelineError {
    type V = PipelineErrorV;

    open spec fn view(&self) -> PipelineErrorV {
        match self {
            PipelineError::UnreadableImage { detail } => PipelineErrorV::UnreadableImage {
                detail: detail@,
            },
            PipelineError::ExternalToolFailed { tool, stderr } => {
                PipelineErrorV::ExternalToolFailed { tool: *tool, stderr: stderr@ }
            },
            PipelineError::FilesystemOpError { op, detail } => {
                PipelineErrorV::FilesystemOpError { op: *op, detail: detail@ }
            },
        }
    }
}

impl PipelineErrorV {
    /// The human-readable message for this failure.
    pub open spec fn spec_message(self) -> Seq<char> {
        match self {
            PipelineErrorV::UnreadableImage { detail } => "unreadable image: "@ + detail,
            PipelineErrorV::ExternalToolFailed { tool, stderr } => (if tool is Upscaler {
                "waifu2x error: "@
            } else {
                "texconv error: "@
            }) + stderr,
            PipelineErrorV::FilesystemOpError { op, detail } => (if op is Rename {
                "rename: "@
            } else {
                "remove: "@
            }) + detail,
        }
    }
}

impl PipelineError {
    /// Render the failure for the report stream.
    pub fn message(&self) -> (r: String)
        ensures
            r@ == self@.spec_message(),
    {
        match self {
            PipelineError::UnreadableImage { detail } => {
                String::from_str("unreadable image: ").concat(detail.as_str())
            },
            PipelineError::ExternalToolFailed { tool, stderr } => {
                match tool {
                    Tool::Upscaler => String::from_str("waifu2x error: ").concat(stderr.as_str()),
                    Tool::Converter => String::from_str("texconv error: ").concat(stderr.as_str()),
                }
            },
            PipelineError::FilesystemOpError { op, detail } => {
                match op {
                    FsOp::Rename => String::from_str("rename: ").concat(detail.as_str()),
                    FsOp::Remove => String::from_str("remove: ").concat(detail.as_str()),
                }
            },
        }
    }
}

/// How one file's pipeline ended.
#[derive(Clone, Debug, PartialEq)]
pub enum PipelineOutcome {
    Success,
    /// The failure, tagged with the file name it concerns.
    Failure { file: String, error: PipelineError },
}

/// The mathematical model of a [`PipelineOutcome`].
pub enum PipelineOutcomeV {
    Success,
    Failure { file: Seq<char>, error: PipelineErrorV },
}

impl View for PipelineOutcome {
    type V = PipelineOutcomeV;

    open spec fn view(&self) -> PipelineOutcomeV {
        match self {
            PipelineOutcome::Success => PipelineOutcomeV::Success,
            PipelineOutcome::Failure { file, error } => PipelineOutcomeV::Failure {
                file: file@,
                error: error@,
            },
        }
    }
}

impl PipelineOutcome {
    /// Did this file's pipeline succeed?
    pub fn is_success(&self) -> (r: bool)
        ensures
            r == (self@ is Success),
    {
        match self {
            PipelineOutcome::Success => true,
            PipelineOutcome::Failure { .. } => false,
        }
    }
}

/// Where one file's pipeline stands.
#[derive(PartialEq, Eq, Structural, Clone, Copy, Debug)]
pub enum Phase {
    /// Waiting for the image's dimensions.
    Inspecting,
    /// The upscaler runs on the original (small branch).
    Upscaling,
    /// The converter runs on the intermediate file (small branch).
    ConvertingSmall,
    /// The converter runs on the original (large branch).
    ConvertingLarge,
    /// The converted output is renamed into its final place.
    Renaming,
    /// The intermediate file is removed.
    Removing,
    /// The pipeline for this file is over.
    Done,
}

/// What the caller reports back after performing an action.
#[derive(Clone, Debug, PartialEq)]
pub enum Event {
    /// The image's pixel dimensions were read.
    DimensionsOk { width: u32, height: u32 },
    /// The file could not be opened or decoded as an image.
    DimensionsErr { detail: String },
    /// The invoked tool exited successfully.
    ToolOk,
    /// The invoked tool failed; its captured standard error.
    ToolErr { stderr: String },
    /// The filesystem operation succeeded.
    FsOk,
    /// The filesystem operation failed.
    FsErr { detail: String },
}

/// The mathematical model of an [`Event`].
pub enum EventV {
    DimensionsOk { width: u32, height: u32 },
    DimensionsErr { detail: Seq<char> },
    ToolOk,
    ToolErr { stderr: Seq<char> },
    FsOk,
    FsErr { detail: Seq<char> },
}

impl View for Event {
    type V = EventV;

    open spec fn view(&self) -> EventV {
        match self {
            Event::DimensionsOk { width, height } => EventV::DimensionsOk {
                width: *width,
                height: *height,
            },
            Event::DimensionsErr { detail } => EventV::DimensionsErr { detail: detail@ },
            Event::ToolOk => EventV::ToolOk,
            Event::ToolErr { stderr } => EventV::ToolErr { stderr: stderr@ },
            Event::FsOk => EventV::FsOk,
            Event::FsErr { detail } => EventV::FsErr { detail: detail@ },
        }
    }
}

/// What the caller must do next for this file.
#[derive(Clone, Debug, PartialEq)]
pub enum Action {
    /// Read the image's pixel dimensions at `path`.
    Inspect { path: String },
    /// Run the upscaler: read `input`, write `output`, scale by
    /// `factor`.
    RunUpscaler { input: String, output: String, factor: u32 },
    /// Run the converter on the file `name` in `dir`, writing its
    /// output into `dir`.
    RunConverter { dir: String, name: String },
    /// Rename `from` to `to`, replacing any file at `to`.
    Rename { from: String, to: String },
    /// Remove the file at `path`.
    Remove { path: String },
    /// Nothing is left to do; report this outcome.
    Report { outcome: PipelineOutcome },
}

/// The mathematical model of an [`Action`].
pub enum ActionV {
    Inspect { path: Seq<char> },
    RunUpscaler { input: Seq<char>, output: Seq<char>, factor: u32 },
    RunConverter { dir: Seq<char>, name: Seq<char> },
    Rename { from: Seq<char>, to: Seq<char> },
    Remove { path: Seq<char> },
    Report { outcome: PipelineOutcomeV },
}

impl View for Action {
    type V = ActionV;

    open spec fn view(&self) -> ActionV {
        match self {
            Action::Inspect { path } => ActionV::Inspect { path: path@ },
            Action::RunUpscaler { input, output, factor } => ActionV::RunUpscaler {
                input: input@,
                output: output@,
                factor: *factor,
            },
            Action::RunConverter { dir, name } => ActionV::RunConverter {
                dir: dir@,
                name: name@,
            },
            Action::Rename { from, to } => ActionV::Rename { from: from@, to: to@ },
            Action::Remove { path } => ActionV::Remove { path: path@ },
            Action::Report { outcome } => ActionV::Report { outcome: outcome@ },
        }
    }
}

/// The program name the upscaler is invoked as.
pub open spec fn upscaler_program() -> Seq<char> {
    "./waifu2x-ncnn-vulkan.exe"@
}

/// The program name the converter is invoked as.
pub open spec fn converter_program() -> Seq<char> {
    "./texconv.exe"@
}

/// The fixed model identifier handed to the upscaler.
pub open spec fn upscaler_model() -> Seq<char> {
    "models-upconv_7_anime_style_art_rgb"@
}

/// The upscale factor as a command-line argument.
pub open spec fn spec_factor_arg(f: u32) -> Seq<char> {
    if f == 2 {
        "2"@
    } else if f == 4 {
        "4"@
    } else if f == 8 {
        "8"@
    } else if f == 16 {
        "16"@
    } else {
        "32"@
    }
}

/// The upscaler's argument list: input, output, the fixed
/// noise-reduction level, the scale factor, and the fixed model.
pub open spec fn spec_upscaler_args(input: Seq<char>, output: Seq<char>, f: u32) -> Seq<Seq<char>> {
    seq!["-i"@, input, "-o"@, output, "-n"@, "1"@, "-s"@, spec_factor_arg(f), "-m"@, upscaler_model()]
}

/// The converter's argument list: overwrite mode, the output
/// directory, and the input path.
pub open spec fn spec_converter_args(dir: Seq<char>, name: Seq<char>) -> Seq<Seq<char>> {
    seq!["-y"@, "-o"@, dir, spec_join(dir, name)]
}

/// The program and argument list a tool action stands for.
pub open spec fn spec_command(a: ActionV) -> (Seq<char>, Seq<Seq<char>>) {
    match a {
        ActionV::RunUpscaler { input, output, factor } => (
            upscaler_program(),
            spec_upscaler_args(input, output, factor),
        ),
        ActionV::RunConverter { dir, name } => (
            converter_program(),
            spec_converter_args(dir, name),
        ),
        _ => (Seq::empty(), Seq::empty()),
    }
}

/// The upscale factor rendered as a command-line argument.
pub fn factor_arg(f: u32) -> (r: &'static str)
    ensures
        r@ == spec_factor_arg(f),
{
    match f {
        2 => "2",
        4 => "4",
        8 => "8",
        16 => "16",
        _ => "32",
    }
}

impl Action {
    /// The program name and argument list to invoke for a tool action.
    pub fn command(&self) -> (r: (String, Vec<String>))
        requires
            self@ is RunUpscaler || self@ is RunConverter,
        ensures
            r.0@ == spec_command(self@).0,
            r.1.deep_view() == spec_command(self@).1,
    {
        match self {
            Action::RunUpscaler { input, output, factor } => {
                let mut args: Vec<String> = Vec::new();
                args.push(String::from_str("-i"));
                args.push(input.clone());
                args.push(String::from_str("-o"));
                args.push(output.clone());
                args.push(String::from_str("-n"));
                args.push(String::from_str("1"));
                args.push(String::from_str("-s"));
                args.push(String::from_str(factor_arg(*factor)));
                args.push(String::from_str("-m"));
                args.push(String::from_str("models-upconv_7_anime_style_art_rgb"));
                proof {
                    assert(args.deep_view() =~= spec_upscaler_args(input@, output@, *factor));
                }
                (String::from_str("./waifu2x-ncnn-vulkan.exe"), args)
            },
            Action::RunConverter { dir, name } => {
                let mut args: Vec<String> = Vec::new();
                args.push(String::from_str("-y"));
                args.push(String::from_str("-o"));
                args.push(dir.clone());
                args.push(join(dir.as_str(), name.as_str()));
                proof {
                    assert(args.deep_view() =~= spec_converter_args(dir@, name@));
                }
                (String::from_str("./texconv.exe"), args)
            },
            _ => (String::new(), Vec::new()),
        }
    }
}

/// The failure outcome for `cand` with the given error.
pub open spec fn spec_failure(cand: CandidateV, error: PipelineErrorV) -> PipelineOutcomeV {
    PipelineOutcomeV::Failure { file: cand.name, error }
}

/// Which events a phase can be answered with: exactly those that
/// report on the action the machine emitted on entering the phase.
pub open spec fn spec_expects(phase: Phase, ev: EventV) -> bool {
    match phase {
        Phase::Inspecting => ev is DimensionsOk || ev is DimensionsErr,
        Phase::Upscaling => ev is ToolOk || ev is ToolErr,
        Phase::ConvertingSmall => ev is ToolOk || ev is ToolErr,
        Phase::ConvertingLarge => ev is ToolOk || ev is ToolErr,
        Phase::Renaming => ev is FsOk || ev is FsErr,
        Phase::Removing => ev is FsOk || ev is FsErr,
        Phase::Done => false,
    }
}

/// The transition function of the per-file pipeline. Given the
/// configuration, the candidate, the phase the file stands in and the
/// event answering the pending action, it yields the next phase and
/// the next action.
pub open spec fn spec_step(cfg: RunConfig, cand: CandidateV, phase: Phase, ev: EventV) -> (Phase,
    ActionV) {
    match (phase, ev) {
        (Phase::Inspecting, EventV::DimensionsOk { width, height }) => {
            if spec_is_small(width, height, cfg.threshold) {
                (
                    Phase::Upscaling,
                    ActionV::RunUpscaler {
                        input: cand.path(),
                        output: cand.intermediate_path(),
                        factor: cfg.factor,
                    },
                )
            } else {
                (Phase::ConvertingLarge, ActionV::RunConverter { dir: cand.dir, name: cand.name })
            }
        },
        (Phase::Inspecting, EventV::DimensionsErr { detail }) => {
            (
                Phase::Done,
                ActionV::Report {
                    outcome: spec_failure(cand, PipelineErrorV::UnreadableImage { detail }),
                },
            )
        },
        (Phase::Upscaling, EventV::ToolOk) => {
            (
                Phase::ConvertingSmall,
                ActionV::RunConverter { dir: cand.dir, name: cand.intermediate_name() },
            )
        },
        (Phase::Upscaling, EventV::ToolErr { stderr }) => {
            (
                Phase::Done,
                ActionV::Report {
                    outcome: spec_failure(
                        cand,
                        PipelineErrorV::ExternalToolFailed { tool: Tool::Upscaler, stderr },
                    ),
                },
            )
        },
        (Phase::ConvertingSmall, EventV::ToolOk) => {
            (
                Phase::Renaming,
                ActionV::Rename { from: cand.converted_intermediate_path(), to: cand.final_path() },
            )
        },
        (Phase::ConvertingSmall, EventV::ToolErr { stderr }) => {
            (
                Phase::Done,
                ActionV::Report {
                    outcome: spec_failure(
                        cand,
                        PipelineErrorV::ExternalToolFailed { tool: Tool::Converter, stderr },
                    ),
                },
            )
        },
        (Phase::ConvertingLarge, EventV::ToolOk) => {
            (Phase::Done, ActionV::Report { outcome: PipelineOutcomeV::Success })
        },
        (Phase::ConvertingLarge, EventV::ToolErr { stderr }) => {
            (
                Phase::Done,
                ActionV::Report {
                    outcome: spec_failure(
                        cand,
                        PipelineErrorV::ExternalToolFailed { tool: Tool::Converter, stderr },
                    ),
                },
            )
        },
        (Phase::Renaming, EventV::FsOk) => {
            (Phase::Removing, ActionV::Remove { path: cand.intermediate_path() })
        },
        (Phase::Renaming, EventV::FsErr { detail }) => {
            (
                Phase::Done,
                ActionV::Report {
                    outcome: spec_failure(
                        cand,
                        PipelineErrorV::FilesystemOpError { op: FsOp::Rename, detail },
                    ),
                },
            )
        },
        (Phase::Removing, EventV::FsOk) => {
            (Phase::Done, ActionV::Report { outcome: PipelineOutcomeV::Success })
        },
        (Phase::Removing, EventV::FsErr { detail }) => {
            (
                Phase::Done,
                ActionV::Report {
                    outcome: spec_failure(
                        cand,
                        PipelineErrorV::FilesystemOpError { op: FsOp::Remove, detail },
                    ),
                },
            )
        },
        _ => (Phase::Done, ActionV::Report { outcome: PipelineOutcomeV::Success }),
    }
}

/// Can `event` answer the pending action of `phase`?
pub fn expects(phase: Phase, event: &Event) -> (r: bool)
    ensures
        r == spec_expects(phase, event@),
{
    match phase {
        Phase::Inspecting => matches!(event, Event::DimensionsOk { .. } | Event::DimensionsErr { .. }),
        Phase::Upscaling => matches!(event, Event::ToolOk | Event::ToolErr { .. }),
        Phase::ConvertingSmall => matches!(event, Event::ToolOk | Event::ToolErr { .. }),
        Phase::ConvertingLarge => matches!(event, Event::ToolOk | Event::ToolErr { .. }),
        Phase::Renaming => matches!(event, Event::FsOk | Event::FsErr { .. }),
        Phase::Removing => matches!(event, Event::FsOk | Event::FsErr { .. }),
        Phase::Done => false,
    }
}

/// Begin the pipeline for `cand`: the file stands in the inspection
/// phase and the caller must read its dimensions.
pub fn start(cand: &Candidate) -> (r: (Phase, Action))
    ensures
        r.0 == Phase::Inspecting,
        r.1@ == (ActionV::Inspect { path: cand@.path() }),
{
    let path = join(cand.dir.as_str(), cand.name.as_str());
    (Phase::Inspecting, Action::Inspect { path })
}

/// Advance the pipeline for `cand` by one step: consume the event that
/// answers the pending action of `phase` and emit the next phase and
/// action, exactly as [`spec_step`] says.
pub fn step(cfg: &RunConfig, cand: &Candidate, phase: Phase, event: Event) -> (r: (Phase, Action))
    requires
        spec_expects(phase, event@),
    ensures
        r.0 == spec_step(*cfg, cand@, phase, event@).0,
        r.1@ == spec_step(*cfg, cand@, phase, event@).1,
{
    match (phase, event) {
        (Phase::Inspecting, Event::DimensionsOk { width, height }) => {
            if is_small(width, height, cfg.threshold) {
                let input = join(cand.dir.as_str(), cand.name.as_str());
                let inter = intermediate_name(cand.name.as_str());
                let output = join(cand.dir.as_str(), inter.as_str());
                (
                    Phase::Upscaling,
                    Action::RunUpscaler { input, output, factor: cfg.factor },
                )
            } else {
                (
                    Phase::ConvertingLarge,
                    Action::RunConverter { dir: cand.dir.clone(), name: cand.name.clone() },
                )
            }
        },
        (Phase::Inspecting, Event::DimensionsErr { detail }) => {
            (
                Phase::Done,
                Action::Report {
                    outcome: PipelineOutcome::Failure {
                        file: cand.name.clone(),
                        error: PipelineError::UnreadableImage { detail },
                    },
                },
            )
        },
        (Phase::Upscaling, Event::ToolOk) => {
            let inter = intermediate_name(cand.name.as_str());
            (
                Phase::ConvertingSmall,
                Action::RunConverter { dir: cand.dir.clone(), name: inter },
            )
        },
        (Phase::Upscaling, Event::ToolErr { stderr }) => {
            (
                Phase::Done,
                Action::Report {
                    outcome: PipelineOutcome::Failure {
                        file: cand.name.clone(),
                        error: PipelineError::ExternalToolFailed { tool: Tool::Upscaler, stderr },
                    },
                },
            )
        },
        (Phase::ConvertingSmall, Event::ToolOk) => {
            let inter = intermediate_name(cand.name.as_str());
            let converted = replace_extension(inter.as_str(), "dds");
            let from = join(cand.dir.as_str(), converted.as_str());
            let final_name = replace_extension(cand.name.as_str(), "dds");
            let to = join(cand.dir.as_str(), final_name.as_str());
            (Phase::Renaming, Action::Rename { from, to })
        },
        (Phase::ConvertingSmall, Event::ToolErr { stderr }) => {
            (
                Phase::Done,
                Action::Report {
                    outcome: PipelineOutcome::Failure {
                        file: cand.name.clone(),
                        error: PipelineError::ExternalToolFailed { tool: Tool::Converter, stderr },
                    },
                },
            )
        },
        (Phase::ConvertingLarge, Event::ToolOk) => {
            (Phase::Done, Action::Report { outcome: PipelineOutcome::Success })
        },
        (Phase::ConvertingLarge, Event::ToolErr { stderr }) => {
            (
                Phase::Done,
                Action::Report {
                    outcome: PipelineOutcome::Failure {
                        file: cand.name.clone(),
                        error: PipelineError::ExternalToolFailed { tool: Tool::Converter, stderr },
                    },
                },
            )
        },
        (Phase::Renaming, Event::FsOk) => {
            let inter = intermediate_name(cand.name.as_str());
            let path = join(cand.dir.as_str(), inter.as_str());
            (Phase::Removing, Action::Remove { path })
        },
        (Phase::Renaming, Event::FsErr { detail }) => {
            (
                Phase::Done,
                Action::Report {
                    outcome: PipelineOutcome::Failure {
                        file: cand.name.clone(),
                        error: PipelineError::FilesystemOpError { op: FsOp::Rename, detail },
                    },
                },
            )
        },
        (Phase::Removing, Event::FsOk) => {
            (Phase::Done, Action::Report { outcome: PipelineOutcome::Success })
        },
        (Phase::Removing, Event::FsErr { detail }) => {
            (
                Phase::Done,
                Action::Report {
                    outcome: PipelineOutcome::Failure {
                        file: cand.name.clone(),
                        error: PipelineError::FilesystemOpError { op: FsOp::Remove, detail },
                    },
                },
            )
        },
        _ => (Phase::Done, Action::Report { outcome: PipelineOutcome::Success }),
    }
}

} // verus!
