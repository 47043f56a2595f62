//! Laws of the per-file pipeline, proved over its traces.
//!
//! A run of one file is the sequence of steps the machine took: each
//! step records the phase it stood in, the event that answered the
//! pending action, and the phase and action the machine moved to. The
//! laws hold of every trace the machine can produce, whatever the
//! outside tools and the filesystem answered.

use vstd::prelude::*;

use crate::names::spec_join;
use crate::names::spec_replace_extension;
use crate::pipeline::ActionV;
use crate::pipeline::CandidateV;
use crate::pipeline::EventV;
use crate::pipeline::FsOp;
use crate::pipeline::Phase;
use crate::pipeline::PipelineErrorV;
use crate::pipeline::PipelineOutcomeV;
use crate::pipeline::RunConfig;
use crate::pipeline::Tool;
use crate::pipeline::spec_expects;
use crate::pipeline::spec_failure;
use crate::pipeline::spec_step;
use crate::spec_is_small;

verus! {

/// One recorded step of a run.
pub struct StepRec {
    pub pre: Phase,
    pub event: EventV,
    pub post: Phase,
    pub action: ActionV,
}

/// The step answers the pending action of its phase and moves exactly
/// as the transition function says.
pub open spec fn step_ok(cfg: RunConfig, cand: CandidateV, s: StepRec) -> bool {
    spec_expects(s.pre, s.event) && spec_step(cfg, cand, s.pre, s.event) == (s.post, s.action)
}

/// The trace records a run of the machine on `cand` from its start.
pub open spec fn valid_run(cfg: RunConfig, cand: CandidateV, tr: Seq<StepRec>) -> bool {
    &&& tr.len() > 0 ==> tr[0].pre == Phase::Inspecting
    &&& forall|i: int| 0 <= i < tr.len() ==> step_ok(cfg, cand, #[trigger] tr[i])
    &&& forall|i: int| 0 < i < tr.len() ==> (#[trigger] tr[i]).pre == tr[i - 1].post
}

/// The run has ended: nothing is pending.
pub open spec fn complete_run(tr: Seq<StepRec>) -> bool {
    tr.len() > 0 && tr.last().post == Phase::Done
}

/// The run began with readable dimensions that classified the image
/// as small.
pub open spec fn small_run(cfg: RunConfig, tr: Seq<StepRec>) -> bool {
    tr.len() > 0 && match tr[0].event {
        EventV::DimensionsOk { width, height } => spec_is_small(width, height, cfg.threshold),
        _ => false,
    }
}

/// The run began with readable dimensions that classified the image
/// as large.
pub open spec fn large_run(cfg: RunConfig, tr: Seq<StepRec>) -> bool {
    tr.len() > 0 && match tr[0].event {
        EventV::DimensionsOk { width, height } => !spec_is_small(width, height, cfg.threshold),
        _ => false,
    }
}

/// The outcome the run reported, for a complete run.
pub open spec fn run_outcome(tr: Seq<StepRec>) -> PipelineOutcomeV {
    match tr.last().action {
        ActionV::Report { outcome } => outcome,
        _ => vstd::pervasive::arbitrary(),
    }
}

/// How often the upscaler was invoked in the trace.
pub open spec fn count_upscales(tr: Seq<StepRec>) -> int
    decreases tr.len(),
{
    if tr.len() == 0 {
        0
    } else {
        count_upscales(tr.drop_last()) + if tr.last().action is RunUpscaler {
            1int
        } else {
            0int
        }
    }
}

/// How often the converter was invoked in the trace.
pub open spec fn count_converts(tr: Seq<StepRec>) -> int
    decreases tr.len(),
{
    if tr.len() == 0 {
        0
    } else {
        count_converts(tr.drop_last()) + if tr.last().action is RunConverter {
            1int
        } else {
            0int
        }
    }
}

/// How often a rename was performed in the trace.
pub open spec fn count_renames(tr: Seq<StepRec>) -> int
    decreases tr.len(),
{
    if tr.len() == 0 {
        0
    } else {
        count_renames(tr.drop_last()) + if tr.last().action is Rename {
            1int
        } else {
            0int
        }
    }
}

/// How often a remove was performed in the trace.
pub open spec fn count_removes(tr: Seq<StepRec>) -> int
    decreases tr.len(),
{
    if tr.len() == 0 {
        0
    } else {
        count_removes(tr.drop_last()) + if tr.last().action is Remove {
            1int
        } else {
            0int
        }
    }
}

/// The four invocation counts of a trace, in one tuple.
pub open spec fn counts4(tr: Seq<StepRec>) -> (int, int, int, int) {
    (count_upscales(tr), count_converts(tr), count_renames(tr), count_removes(tr))
}

/// What a run's phase says about how often each action has happened
/// so far, and what its reported outcome says once it is done.
pub open spec fn run_profile(cfg: RunConfig, cand: CandidateV, tr: Seq<StepRec>) -> bool {
    match tr.last().post {
        Phase::Inspecting => false,
        Phase::Upscaling => small_run(cfg, tr) && counts4(tr) == (1int, 0int, 0int, 0int),
        Phase::ConvertingSmall => small_run(cfg, tr) && counts4(tr) == (1int, 1int, 0int, 0int),
        Phase::ConvertingLarge => large_run(cfg, tr) && counts4(tr) == (0int, 1int, 0int, 0int),
        Phase::Renaming => small_run(cfg, tr) && counts4(tr) == (1int, 1int, 1int, 0int),
        Phase::Removing => small_run(cfg, tr) && counts4(tr) == (1int, 1int, 1int, 1int),
        Phase::Done => match tr.last().action {
            ActionV::Report { outcome } => match outcome {
                PipelineOutcomeV::Success => {
                    &&& small_run(cfg, tr) ==> counts4(tr) == (1int, 1int, 1int, 1int)
                    &&& !small_run(cfg, tr) ==> large_run(cfg, tr) && counts4(tr) == (
                        0int,
                        1int,
                        0int,
                        0int,
                    )
                },
                PipelineOutcomeV::Failure { file, error } => file == cand.name && match error {
                    PipelineErrorV::UnreadableImage { .. } => tr.len() == 1 && counts4(tr) == (
                        0int,
                        0int,
                        0int,
                        0int,
                    ),
                    PipelineErrorV::ExternalToolFailed { tool, .. } => {
                        if tool is Upscaler {
                            small_run(cfg, tr) && counts4(tr) == (1int, 0int, 0int, 0int)
                        } else {
                            &&& small_run(cfg, tr) ==> counts4(tr) == (1int, 1int, 0int, 0int)
                            &&& !small_run(cfg, tr) ==> large_run(cfg, tr) && counts4(tr) == (
                                0int,
                                1int,
                                0int,
                                0int,
                            )
                        }
                    },
                    PipelineErrorV::FilesystemOpError { op, .. } => {
                        if op is Rename {
                            small_run(cfg, tr) && counts4(tr) == (1int, 1int, 1int, 0int)
                        } else {
                            small_run(cfg, tr) && counts4(tr) == (1int, 1int, 1int, 1int)
                        }
                    },
                },
            },
            _ => false,
        },
    }
}

/// The master invariant of runs: every nonempty valid trace satisfies
/// its profile.
#[verifier::rlimit(100)]
pub proof fn lemma_run_profile(cfg: RunConfig, cand: CandidateV, tr: Seq<StepRec>)
    requires
        valid_run(cfg, cand, tr),
        tr.len() > 0,
    ensures
        run_profile(cfg, cand, tr),
    decreases tr.len(),
{
    let last = tr.last();
    assert(step_ok(cfg, cand, last));
    if tr.len() == 1 {
        assert(tr.drop_last() =~= Seq::<StepRec>::empty());
        assert(count_upscales(Seq::<StepRec>::empty()) == 0);
        assert(count_converts(Seq::<StepRec>::empty()) == 0);
        assert(count_renames(Seq::<StepRec>::empty()) == 0);
        assert(count_removes(Seq::<StepRec>::empty()) == 0);
        assert(last.pre == Phase::Inspecting);
    } else {
        let prefix = tr.drop_last();
        assert(valid_run(cfg, cand, prefix)) by {
            assert(forall|i: int| 0 <= i < prefix.len() ==> step_ok(cfg, cand, #[trigger] prefix[i]))
                by {
                assert(forall|i: int|
                    0 <= i < prefix.len() ==> prefix[i] == #[trigger] tr[i] && step_ok(
                        cfg,
                        cand,
                        tr[i],
                    ));
            }
        }
        lemma_run_profile(cfg, cand, prefix);
        assert(prefix.last() == tr[tr.len() - 2]);
        assert(last.pre == tr[tr.len() - 2].post);
        assert(small_run(cfg, prefix) == small_run(cfg, tr));
        assert(large_run(cfg, prefix) == large_run(cfg, tr));
    }
}

/// No step of a valid run other than the first stands in the
/// inspection phase: inspection happens once, at the start.
pub proof fn lemma_no_reinspection(cfg: RunConfig, cand: CandidateV, tr: Seq<StepRec>, i: int)
    requires
        valid_run(cfg, cand, tr),
        0 < i < tr.len(),
    ensures
        tr[i].pre != Phase::Inspecting,
{
    assert(step_ok(cfg, cand, tr[i - 1]));
    assert(tr[i].pre == tr[i - 1].post);
}

/// Once a run is done it takes no further step: the reporting step is
/// the last.
pub proof fn lemma_done_is_last(cfg: RunConfig, cand: CandidateV, tr: Seq<StepRec>, i: int)
    requires
        valid_run(cfg, cand, tr),
        0 <= i < tr.len(),
        tr[i].post == Phase::Done,
    ensures
        i == tr.len() - 1,
{
    if i < tr.len() - 1 {
        assert(tr[i + 1].pre == tr[i].post);
        assert(step_ok(cfg, cand, tr[i + 1]));
        assert(false);
    }
}

/// Law: a completed run on a large image invokes the converter exactly
/// once and the upscaler, the rename and the remove never.
pub proof fn lemma_large_converts_only(cfg: RunConfig, cand: CandidateV, tr: Seq<StepRec>)
    requires
        valid_run(cfg, cand, tr),
        complete_run(tr),
        large_run(cfg, tr),
    ensures
        count_upscales(tr) == 0,
        count_converts(tr) == 1,
        count_renames(tr) == 0,
        count_removes(tr) == 0,
{
    lemma_run_profile(cfg, cand, tr);
    if tr.len() == 1 {
        assert(step_ok(cfg, cand, tr[0]));
    }
}

/// Law: a completed run on a small image invokes the upscaler exactly
/// once, and the converter at most once — exactly once when the run
/// succeeds — and only as the direct consequence of the upscaler
/// having succeeded.
proof fn lemma_upscale_only_at_start(cfg: RunConfig, cand: CandidateV, tr: Seq<StepRec>, i: int)
    requires
        valid_run(cfg, cand, tr),
        0 <= i < tr.len(),
        tr[i].action is RunUpscaler,
    ensures
        i == 0,
{
    assert(step_ok(cfg, cand, tr[i]));
    if i > 0 {
        lemma_no_reinspection(cfg, cand, tr, i);
        assert(false);
    }
}

proof fn lemma_convert_only_after_upscale(
    cfg: RunConfig,
    cand: CandidateV,
    tr: Seq<StepRec>,
    i: int,
)
    requires
        valid_run(cfg, cand, tr),
        small_run(cfg, tr),
        0 <= i < tr.len(),
        tr[i].action is RunConverter,
    ensures
        i >= 1,
        tr[i].pre == Phase::Upscaling,
        tr[i].event is ToolOk,
{
    assert(step_ok(cfg, cand, tr[i]));
    if i > 0 {
        lemma_no_reinspection(cfg, cand, tr, i);
    }
}

#[verifier::rlimit(100)]
pub proof fn lemma_small_upscales_once(cfg: RunConfig, cand: CandidateV, tr: Seq<StepRec>)
    requires
        valid_run(cfg, cand, tr),
        complete_run(tr),
        small_run(cfg, tr),
    ensures
        count_upscales(tr) == 1,
        count_converts(tr) <= 1,
        run_outcome(tr) is Success ==> count_converts(tr) == 1,
        forall|i: int| 0 <= i < tr.len() && (#[trigger] tr[i]).action is RunUpscaler ==> i == 0,
        forall|i: int|
            0 <= i < tr.len() && (#[trigger] tr[i]).action is RunConverter ==> i >= 1 && tr[i].pre
                == Phase::Upscaling && tr[i].event is ToolOk,
{
    lemma_run_profile(cfg, cand, tr);
    assert forall|i: int|
        0 <= i < tr.len() && (#[trigger] tr[i]).action is RunConverter implies i >= 1 && tr[i].pre
        == Phase::Upscaling && tr[i].event is ToolOk by {
        lemma_convert_only_after_upscale(cfg, cand, tr, i);
    }
    assert forall|i: int|
        0 <= i < tr.len() && (#[trigger] tr[i]).action is RunUpscaler implies i == 0 by {
        lemma_upscale_only_at_start(cfg, cand, tr, i);
    }
}

/// The captured standard error of a tool-failure event.
pub open spec fn stderr_of(ev: EventV) -> Seq<char> {
    match ev {
        EventV::ToolErr { stderr } => stderr,
        _ => vstd::pervasive::arbitrary(),
    }
}

/// Law: when the upscaler fails, the run ends at once: the converter
/// is never invoked, no rename and no remove happen, and the upscaler
/// failure is reported for this file with the captured diagnostic.
pub proof fn lemma_upscale_failure_aborts(
    cfg: RunConfig,
    cand: CandidateV,
    tr: Seq<StepRec>,
    i: int,
)
    requires
        valid_run(cfg, cand, tr),
        0 <= i < tr.len(),
        tr[i].pre == Phase::Upscaling,
        tr[i].event is ToolErr,
    ensures
        i == tr.len() - 1,
        count_converts(tr) == 0,
        count_renames(tr) == 0,
        count_removes(tr) == 0,
        run_outcome(tr) == spec_failure(
            cand,
            PipelineErrorV::ExternalToolFailed { tool: Tool::Upscaler, stderr: stderr_of(tr[i].event) },
        ),
{
    assert(step_ok(cfg, cand, tr[i]));
    lemma_done_is_last(cfg, cand, tr, i);
    lemma_run_profile(cfg, cand, tr);
}

/// Law: when the converter fails — on either branch — no rename and no
/// remove ever happen, so the intermediate file of the small branch is
/// left in place, and the converter failure is reported for this file.
pub proof fn lemma_convert_failure_aborts(
    cfg: RunConfig,
    cand: CandidateV,
    tr: Seq<StepRec>,
    i: int,
)
    requires
        valid_run(cfg, cand, tr),
        0 <= i < tr.len(),
        tr[i].pre == Phase::ConvertingSmall || tr[i].pre == Phase::ConvertingLarge,
        tr[i].event is ToolErr,
    ensures
        i == tr.len() - 1,
        count_renames(tr) == 0,
        count_removes(tr) == 0,
        run_outcome(tr) == spec_failure(
            cand,
            PipelineErrorV::ExternalToolFailed {
                tool: Tool::Converter,
                stderr: stderr_of(tr[i].event),
            },
        ),
{
    assert(step_ok(cfg, cand, tr[i]));
    lemma_done_is_last(cfg, cand, tr, i);
    lemma_run_profile(cfg, cand, tr);
}

/// Law: when the upscaler fails, the filesystem is exactly as it was:
/// in particular the original file is unmodified.
pub proof fn lemma_upscale_failure_fs(
    cfg: RunConfig,
    cand: CandidateV,
    tr: Seq<StepRec>,
    i: int,
    fs0: Set<Seq<char>>,
)
    requires
        valid_run(cfg, cand, tr),
        0 <= i < tr.len(),
        tr[i].pre == Phase::Upscaling,
        tr[i].event is ToolErr,
    ensures
        run_fs(fs0, tr) == fs0,
{
    assert(tr[0].pre == Phase::Inspecting);
    assert(i != 0);
    assert(tr[i].pre == tr[i - 1].post);
    assert(step_ok(cfg, cand, tr[i - 1]));
    if i > 1 {
        lemma_no_reinspection(cfg, cand, tr, i - 1);
        assert(false);
    }
    assert(step_ok(cfg, cand, tr[1]));
    lemma_done_is_last(cfg, cand, tr, 1);
    assert(tr.len() == 2);
    let t1 = tr.drop_last();
    assert(t1.len() == 1);
    assert(run_fs(fs0, t1) == fs0);
    assert(!event_ok(tr[1].event));
    assert(run_fs(fs0, tr) == fs0);
}

/// Law: when the converter fails, nothing more happens to the
/// filesystem: on the small branch the intermediate file is left in
/// place for inspection, and on the large branch nothing changed at
/// all.
pub proof fn lemma_convert_failure_fs(
    cfg: RunConfig,
    cand: CandidateV,
    tr: Seq<StepRec>,
    i: int,
    fs0: Set<Seq<char>>,
)
    requires
        valid_run(cfg, cand, tr),
        0 <= i < tr.len(),
        tr[i].pre == Phase::ConvertingSmall || tr[i].pre == Phase::ConvertingLarge,
        tr[i].event is ToolErr,
    ensures
        tr[i].pre == Phase::ConvertingSmall ==> run_fs(fs0, tr) == fs0.insert(
            cand.intermediate_path(),
        ),
        tr[i].pre == Phase::ConvertingLarge ==> run_fs(fs0, tr) == fs0,
{
    assert(tr[0].pre == Phase::Inspecting);
    assert(i != 0);
    assert(tr[i].pre == tr[i - 1].post);
    assert(step_ok(cfg, cand, tr[i - 1]));
    assert(step_ok(cfg, cand, tr[i]));
    lemma_done_is_last(cfg, cand, tr, i);
    if tr[i].pre == Phase::ConvertingLarge {
        // reached directly from the inspection step
        if i > 1 {
            lemma_no_reinspection(cfg, cand, tr, i - 1);
            assert(false);
        }
        assert(tr.len() == 2);
        let t1 = tr.drop_last();
        assert(t1.len() == 1);
        assert(run_fs(fs0, t1) == fs0);
        assert(!event_ok(tr[1].event));
        assert(run_fs(fs0, tr) == fs0);
    } else {
        // reached from a successful upscale, which itself follows the
        // inspection step
        assert(tr[i - 1].pre == Phase::Upscaling);
        assert(i - 1 != 0);
        assert(tr[i - 1].pre == tr[i - 2].post);
        assert(step_ok(cfg, cand, tr[i - 2]));
        if i > 2 {
            lemma_no_reinspection(cfg, cand, tr, i - 2);
            assert(false);
        }
        assert(tr.len() == 3);
        let t2 = tr.drop_last();
        let t1 = t2.drop_last();
        assert(t1.len() == 1);
        assert(run_fs(fs0, t1) == fs0);
        assert(t2[0] == tr[0] && t2[1] == tr[1]);
        assert(event_ok(tr[1].event));
        assert(tr[0].action == (ActionV::RunUpscaler {
            input: cand.path(),
            output: cand.intermediate_path(),
            factor: cfg.factor,
        }));
        assert(run_fs(fs0, t2) == fs0.insert(cand.intermediate_path()));
        assert(!event_ok(tr[2].event));
    }
}

/// Law: a fully successful run on a small image takes exactly five
/// steps and performs exactly: upscale into the intermediate path,
/// convert the intermediate, rename the converted output to the final
/// path, remove the intermediate, report success — in that order.
pub proof fn lemma_small_success_shape(cfg: RunConfig, cand: CandidateV, tr: Seq<StepRec>)
    requires
        valid_run(cfg, cand, tr),
        complete_run(tr),
        small_run(cfg, tr),
        run_outcome(tr) is Success,
    ensures
        tr.len() == 5,
        tr[0].action == (ActionV::RunUpscaler {
            input: cand.path(),
            output: cand.intermediate_path(),
            factor: cfg.factor,
        }),
        tr[1].event is ToolOk,
        tr[1].action == (ActionV::RunConverter { dir: cand.dir, name: cand.intermediate_name() }),
        tr[2].event is ToolOk,
        tr[2].action == (ActionV::Rename {
            from: cand.converted_intermediate_path(),
            to: cand.final_path(),
        }),
        tr[3].event is FsOk,
        tr[3].action == (ActionV::Remove { path: cand.intermediate_path() }),
        tr[4].event is FsOk,
        tr[4].action == (ActionV::Report { outcome: PipelineOutcomeV::Success }),
{
    assert(step_ok(cfg, cand, tr[0]));
    assert(tr[0].post == Phase::Upscaling);
    if tr.len() == 1 {
        assert(false);
    }
    assert(tr[1].pre == Phase::Upscaling);
    assert(step_ok(cfg, cand, tr[1]));
    if tr[1].event is ToolErr {
        lemma_done_is_last(cfg, cand, tr, 1);
        assert(false);
    }
    assert(tr[1].post == Phase::ConvertingSmall);
    if tr.len() == 2 {
        assert(false);
    }
    assert(tr[2].pre == Phase::ConvertingSmall);
    assert(step_ok(cfg, cand, tr[2]));
    if tr[2].event is ToolErr {
        lemma_done_is_last(cfg, cand, tr, 2);
        assert(false);
    }
    assert(tr[2].post == Phase::Renaming);
    if tr.len() == 3 {
        assert(false);
    }
    assert(tr[3].pre == Phase::Renaming);
    assert(step_ok(cfg, cand, tr[3]));
    if tr[3].event is FsErr {
        lemma_done_is_last(cfg, cand, tr, 3);
        assert(false);
    }
    assert(tr[3].post == Phase::Removing);
    if tr.len() == 4 {
        assert(false);
    }
    assert(tr[4].pre == Phase::Removing);
    assert(step_ok(cfg, cand, tr[4]));
    if tr[4].event is FsErr {
        lemma_done_is_last(cfg, cand, tr, 4);
        assert(false);
    }
    assert(tr[4].post == Phase::Done);
    lemma_done_is_last(cfg, cand, tr, 4);
}

/// Did the event report success?
pub open spec fn event_ok(ev: EventV) -> bool {
    ev is DimensionsOk || ev is ToolOk || ev is FsOk
}

/// What a successfully performed action does to the filesystem, taken
/// as the set of paths that exist: the upscaler writes its output, the
/// converter writes its input's name with the converted extension into
/// the target directory, a rename moves a path, a remove deletes one.
pub open spec fn apply_action(fs: Set<Seq<char>>, a: ActionV) -> Set<Seq<char>> {
    match a {
        ActionV::Inspect { .. } => fs,
        ActionV::RunUpscaler { output, .. } => fs.insert(output),
        ActionV::RunConverter { dir, name } => fs.insert(
            spec_join(dir, spec_replace_extension(name, "dds"@)),
        ),
        ActionV::Rename { from, to } => fs.remove(from).insert(to),
        ActionV::Remove { path } => fs.remove(path),
        ActionV::Report { .. } => fs,
    }
}

/// The filesystem after a run from `fs0`: each step's event applies
/// the previous step's action when it reports success, and a failed
/// action leaves the filesystem as it was. The last step's own action
/// is still pending (for a complete run it is the report, which does
/// nothing).
pub open spec fn run_fs(fs0: Set<Seq<char>>, tr: Seq<StepRec>) -> Set<Seq<char>>
    decreases tr.len(),
{
    if tr.len() <= 1 {
        fs0
    } else {
        let prev = run_fs(fs0, tr.drop_last());
        if event_ok(tr.last().event) {
            apply_action(prev, tr[tr.len() - 2].action)
        } else {
            prev
        }
    }
}

/// For a candidate whose name carries a texture image extension, the
/// original, intermediate, converted-intermediate and final paths are
/// pairwise distinct.
pub proof fn lemma_paths_distinct(cand: CandidateV)
    requires
        crate::names::spec_has_image_ext(cand.name),
    ensures
        cand.final_path() != cand.intermediate_path(),
        cand.final_path() != cand.converted_intermediate_path(),
        cand.final_path() != cand.path(),
        cand.intermediate_path() != cand.converted_intermediate_path(),
        cand.path() != cand.intermediate_path(),
        cand.path() != cand.converted_intermediate_path(),
{
    reveal_strlit("png");
    reveal_strlit("jpg");
    reveal_strlit("dds");
    reveal_strlit(".upscaled.png");
    reveal_strlit("/");
    let name = cand.name;
    let n = name.len() as int;
    crate::names::lemma_last_dot_bounds(name);
    let ld = crate::names::last_dot(name);
    assert(ld >= 0) by {
        if ld < 0 {
            assert(crate::names::spec_extension(name).len() == 0);
            assert("png"@.len() == 3);
            assert("jpg"@.len() == 3);
        }
    }
    assert(name.subrange(ld + 1, n).len() == 3);
    assert(ld == n - 4);
    // the last character of the name is 'g' either way
    assert(name[n - 1] == 'g') by {
        assert(name.subrange(ld + 1, n)[2] == name[n - 1]);
        assert("png"@[2] == 'g');
        assert("jpg"@[2] == 'g');
    }
    let fin = cand.final_name();
    assert(fin.len() == n);
    assert(fin[n - 1] == 's') by {
        assert(fin == name.subrange(0, ld) + seq!['.'] + "dds"@);
        assert(fin[(ld + 1) + 2] == "dds"@[2]);
    }
    let inter = cand.intermediate_name();
    assert(inter.len() == n + 13);
    assert(inter[n + 12] == 'g') by {
        assert(inter[n + 12] == ".upscaled.png"@[12]);
    }
    crate::names::lemma_last_dot_at(".upscaled.png"@, 9);
    crate::names::lemma_last_dot_append(name, ".upscaled.png"@);
    assert(crate::names::last_dot(inter) == n + 9);
    let conv = cand.converted_intermediate_name();
    assert(conv.len() == n + 13);
    assert(conv[n + 12] == 's') by {
        assert(conv == inter.subrange(0, n + 9) + seq!['.'] + "dds"@);
        assert(conv[(n + 10) + 2] == "dds"@[2]);
    }
    // names differ, so the joined paths differ
    let d = cand.dir.len() as int;
    assert(name[n - 1] != fin[n - 1]);
    assert(inter[n + 12] != conv[n + 12]);
    assert(cand.path().len() == d + 1 + n);
    assert(cand.final_path().len() == d + 1 + n);
    assert(cand.intermediate_path().len() == d + 1 + n + 13);
    assert(cand.converted_intermediate_path().len() == d + 1 + n + 13);
    assert(cand.path()[d + 1 + n - 1] == name[n - 1]);
    assert(cand.final_path()[d + 1 + n - 1] == fin[n - 1]);
    assert(cand.intermediate_path()[d + 1 + n + 12] == inter[n + 12]);
    assert(cand.converted_intermediate_path()[d + 1 + n + 12] == conv[n + 12]);
}

/// Law: after a fully successful run on a small image, from a
/// filesystem holding no stale intermediate files, exactly the final
/// converted file has appeared: the original file is untouched, the
/// intermediate is gone, and nothing else changed.
pub proof fn lemma_small_success_fs(
    cfg: RunConfig,
    cand: CandidateV,
    tr: Seq<StepRec>,
    fs0: Set<Seq<char>>,
)
    requires
        valid_run(cfg, cand, tr),
        complete_run(tr),
        small_run(cfg, tr),
        run_outcome(tr) is Success,
        crate::names::spec_has_image_ext(cand.name),
        !fs0.contains(cand.intermediate_path()),
        !fs0.contains(cand.converted_intermediate_path()),
    ensures
        run_fs(fs0, tr) == fs0.insert(cand.final_path()),
        !run_fs(fs0, tr).contains(cand.intermediate_path()),
        !run_fs(fs0, tr).contains(cand.converted_intermediate_path()),
        fs0.contains(cand.path()) ==> run_fs(fs0, tr).contains(cand.path()),
{
    lemma_small_success_shape(cfg, cand, tr);
    lemma_paths_distinct(cand);
    let t4 = tr.drop_last();
    let t3 = t4.drop_last();
    let t2 = t3.drop_last();
    let t1 = t2.drop_last();
    assert(t1.len() == 1);
    assert(run_fs(fs0, t1) == fs0);
    let fs1 = fs0.insert(cand.intermediate_path());
    assert(run_fs(fs0, t2) == fs1) by {
        assert(t2[0] == tr[0] && t2[1] == tr[1]);
        assert(t2.drop_last() =~= t1);
    }
    let fs2 = fs1.insert(cand.converted_intermediate_path());
    assert(run_fs(fs0, t3) == fs2) by {
        assert(t3[1] == tr[1] && t3[2] == tr[2]);
        assert(t3.drop_last() =~= t2);
    }
    let fs3 = fs2.remove(cand.converted_intermediate_path()).insert(cand.final_path());
    assert(run_fs(fs0, t4) == fs3) by {
        assert(t4[2] == tr[2] && t4[3] == tr[3]);
        assert(t4.drop_last() =~= t3);
    }
    let fs4 = fs3.remove(cand.intermediate_path());
    assert(run_fs(fs0, tr) == fs4) by {
        assert(tr.drop_last() =~= t4);
    }
    assert(fs4 =~= fs0.insert(cand.final_path()));
}

} // verus!
