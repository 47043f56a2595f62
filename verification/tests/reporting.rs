use texpipe::pipeline::FsOp;
use texpipe::pipeline::PipelineError;
use texpipe::pipeline::PipelineOutcome;
use texpipe::pipeline::Tool;
use texpipe::report::summarize;

fn failure(file: &str, error: PipelineError) -> PipelineOutcome {
    PipelineOutcome::Failure {
        file: file.to_string(),
        error,
    }
}

#[test]
fn five_candidates_one_upscaler_failure() {
    // the scenario: five candidates, one upscaler invocation fails;
    // the run reports four successes and one failure
    let outcomes = vec![
        PipelineOutcome::Success,
        PipelineOutcome::Success,
        failure(
            "c.png",
            PipelineError::ExternalToolFailed {
                tool: Tool::Upscaler,
                stderr: "boom".to_string(),
            },
        ),
        PipelineOutcome::Success,
        PipelineOutcome::Success,
    ];
    let summary = summarize(&outcomes);
    assert_eq!(summary.total, 5);
    assert_eq!(summary.succeeded, 4);
    assert_eq!(summary.failed, 1);
}

#[test]
fn empty_run_has_empty_tally() {
    let summary = summarize(&vec![]);
    assert_eq!(summary.total, 0);
    assert_eq!(summary.succeeded, 0);
    assert_eq!(summary.failed, 0);
}

#[test]
fn all_failures_counted() {
    let outcomes = vec![
        failure(
            "a.png",
            PipelineError::UnreadableImage {
                detail: "x".to_string(),
            },
        ),
        failure(
            "b.png",
            PipelineError::FilesystemOpError {
                op: FsOp::Remove,
                detail: "y".to_string(),
            },
        ),
    ];
    let summary = summarize(&outcomes);
    assert_eq!(summary.total, 2);
    assert_eq!(summary.succeeded, 0);
    assert_eq!(summary.failed, 2);
}

#[test]
fn outcome_success_query() {
    assert!(PipelineOutcome::Success.is_success());
    assert!(!failure(
        "a.png",
        PipelineError::UnreadableImage {
            detail: "z".to_string()
        }
    )
    .is_success());
}
