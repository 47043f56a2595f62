use texpipe::pipeline::Action;
use texpipe::pipeline::Candidate;
use texpipe::pipeline::Event;
use texpipe::pipeline::FsOp;
use texpipe::pipeline::Phase;
use texpipe::pipeline::PipelineError;
use texpipe::pipeline::PipelineOutcome;
use texpipe::pipeline::RunConfig;
use texpipe::pipeline::Tool;
use texpipe::pipeline::expects;
use texpipe::pipeline::start;
use texpipe::pipeline::step;

fn cand(dir: &str, name: &str) -> Candidate {
    Candidate {
        dir: dir.to_string(),
        name: name.to_string(),
    }
}

fn cfg(threshold: u32, factor: u32) -> RunConfig {
    RunConfig::new(threshold, factor).unwrap()
}

#[test]
fn config_accepts_only_the_enumerated_sets() {
    for t in [64u32, 128, 256, 512, 1024, 2048, 4096] {
        for f in [2u32, 4, 8, 16, 32] {
            assert!(RunConfig::new(t, f).is_some());
        }
    }
    assert!(RunConfig::new(100, 2).is_none());
    assert!(RunConfig::new(256, 3).is_none());
    assert!(RunConfig::new(0, 0).is_none());
}

#[test]
fn small_file_full_success_walkthrough() {
    // the scenario: ModA/Textures/foo.png at 100x100 with threshold 256
    let c = cand("ModA/Textures", "foo.png");
    let conf = cfg(256, 2);
    let (phase, action) = start(&c);
    assert_eq!(phase, Phase::Inspecting);
    assert_eq!(
        action,
        Action::Inspect {
            path: "ModA/Textures/foo.png".to_string()
        }
    );
    let (phase, action) = step(
        &conf,
        &c,
        phase,
        Event::DimensionsOk {
            width: 100,
            height: 100,
        },
    );
    assert_eq!(phase, Phase::Upscaling);
    assert_eq!(
        action,
        Action::RunUpscaler {
            input: "ModA/Textures/foo.png".to_string(),
            output: "ModA/Textures/foo.png.upscaled.png".to_string(),
            factor: 2,
        }
    );
    let (program, args) = action.command();
    assert_eq!(program, "./waifu2x-ncnn-vulkan.exe");
    assert_eq!(
        args,
        vec![
            "-i",
            "ModA/Textures/foo.png",
            "-o",
            "ModA/Textures/foo.png.upscaled.png",
            "-n",
            "1",
            "-s",
            "2",
            "-m",
            "models-upconv_7_anime_style_art_rgb",
        ]
    );
    let (phase, action) = step(&conf, &c, phase, Event::ToolOk);
    assert_eq!(phase, Phase::ConvertingSmall);
    assert_eq!(
        action,
        Action::RunConverter {
            dir: "ModA/Textures".to_string(),
            name: "foo.png.upscaled.png".to_string(),
        }
    );
    let (program, args) = action.command();
    assert_eq!(program, "./texconv.exe");
    assert_eq!(
        args,
        vec![
            "-y",
            "-o",
            "ModA/Textures",
            "ModA/Textures/foo.png.upscaled.png",
        ]
    );
    let (phase, action) = step(&conf, &c, phase, Event::ToolOk);
    assert_eq!(phase, Phase::Renaming);
    assert_eq!(
        action,
        Action::Rename {
            from: "ModA/Textures/foo.png.upscaled.dds".to_string(),
            to: "ModA/Textures/foo.dds".to_string(),
        }
    );
    let (phase, action) = step(&conf, &c, phase, Event::FsOk);
    assert_eq!(phase, Phase::Removing);
    assert_eq!(
        action,
        Action::Remove {
            path: "ModA/Textures/foo.png.upscaled.png".to_string()
        }
    );
    let (phase, action) = step(&conf, &c, phase, Event::FsOk);
    assert_eq!(phase, Phase::Done);
    assert_eq!(
        action,
        Action::Report {
            outcome: PipelineOutcome::Success
        }
    );
}

#[test]
fn large_file_converts_without_upscaling() {
    // the scenario: ModA/Textures/bar.png at 2048x2048 with threshold 256
    let c = cand("ModA/Textures", "bar.png");
    let conf = cfg(256, 2);
    let (phase, _) = start(&c);
    let (phase, action) = step(
        &conf,
        &c,
        phase,
        Event::DimensionsOk {
            width: 2048,
            height: 2048,
        },
    );
    assert_eq!(phase, Phase::ConvertingLarge);
    assert_eq!(
        action,
        Action::RunConverter {
            dir: "ModA/Textures".to_string(),
            name: "bar.png".to_string(),
        }
    );
    let (program, args) = action.command();
    assert_eq!(program, "./texconv.exe");
    assert_eq!(
        args,
        vec!["-y", "-o", "ModA/Textures", "ModA/Textures/bar.png"]
    );
    let (phase, action) = step(&conf, &c, phase, Event::ToolOk);
    assert_eq!(phase, Phase::Done);
    assert_eq!(
        action,
        Action::Report {
            outcome: PipelineOutcome::Success
        }
    );
}

#[test]
fn threshold_is_inclusive_on_the_shorter_side() {
    let c = cand("M/Textures", "t.png");
    let conf = cfg(256, 2);
    let (phase, _) = start(&c);
    // shorter side exactly at the threshold: small
    let (p1, _) = step(
        &conf,
        &c,
        phase,
        Event::DimensionsOk {
            width: 256,
            height: 4000,
        },
    );
    assert_eq!(p1, Phase::Upscaling);
    // shorter side one above the threshold: large
    let (p2, _) = step(
        &conf,
        &c,
        phase,
        Event::DimensionsOk {
            width: 4000,
            height: 257,
        },
    );
    assert_eq!(p2, Phase::ConvertingLarge);
}

#[test]
fn unreadable_image_aborts_before_any_tool() {
    let c = cand("M/Textures", "broken.png");
    let conf = cfg(256, 2);
    let (phase, _) = start(&c);
    let (phase, action) = step(
        &conf,
        &c,
        phase,
        Event::DimensionsErr {
            detail: "bad header".to_string(),
        },
    );
    assert_eq!(phase, Phase::Done);
    match action {
        Action::Report {
            outcome: PipelineOutcome::Failure { file, error },
        } => {
            assert_eq!(file, "broken.png");
            assert_eq!(error.message(), "unreadable image: bad header");
        }
        other => panic!("unexpected action {:?}", other),
    }
}

#[test]
fn upscaler_failure_reports_and_stops() {
    let c = cand("M/Textures", "foo.png");
    let conf = cfg(256, 2);
    let (phase, _) = start(&c);
    let (phase, _) = step(
        &conf,
        &c,
        phase,
        Event::DimensionsOk {
            width: 10,
            height: 10,
        },
    );
    assert_eq!(phase, Phase::Upscaling);
    let (phase, action) = step(
        &conf,
        &c,
        phase,
        Event::ToolErr {
            stderr: "vulkan device not found".to_string(),
        },
    );
    assert_eq!(phase, Phase::Done);
    match action {
        Action::Report {
            outcome: PipelineOutcome::Failure { file, error },
        } => {
            assert_eq!(file, "foo.png");
            assert!(matches!(
                error,
                PipelineError::ExternalToolFailed {
                    tool: Tool::Upscaler,
                    ..
                }
            ));
            assert_eq!(error.message(), "waifu2x error: vulkan device not found");
        }
        other => panic!("unexpected action {:?}", other),
    }
    // the machine is done: no event is expected any more
    assert!(!expects(phase, &Event::ToolOk));
}

#[test]
fn converter_failure_small_branch_keeps_intermediate() {
    let c = cand("M/Textures", "foo.png");
    let conf = cfg(256, 2);
    let (phase, _) = start(&c);
    let (phase, _) = step(
        &conf,
        &c,
        phase,
        Event::DimensionsOk {
            width: 10,
            height: 10,
        },
    );
    let (phase, _) = step(&conf, &c, phase, Event::ToolOk);
    assert_eq!(phase, Phase::ConvertingSmall);
    let (phase, action) = step(
        &conf,
        &c,
        phase,
        Event::ToolErr {
            stderr: "unsupported".to_string(),
        },
    );
    // no rename, no remove: the run ends right here
    assert_eq!(phase, Phase::Done);
    match action {
        Action::Report {
            outcome: PipelineOutcome::Failure { file, error },
        } => {
            assert_eq!(file, "foo.png");
            assert_eq!(error.message(), "texconv error: unsupported");
        }
        other => panic!("unexpected action {:?}", other),
    }
}

#[test]
fn converter_failure_large_branch_reports() {
    let c = cand("M/Textures", "big.jpg");
    let conf = cfg(128, 4);
    let (phase, _) = start(&c);
    let (phase, _) = step(
        &conf,
        &c,
        phase,
        Event::DimensionsOk {
            width: 1000,
            height: 1000,
        },
    );
    assert_eq!(phase, Phase::ConvertingLarge);
    let (phase, action) = step(
        &conf,
        &c,
        phase,
        Event::ToolErr {
            stderr: "disk full".to_string(),
        },
    );
    assert_eq!(phase, Phase::Done);
    match action {
        Action::Report {
            outcome:
                PipelineOutcome::Failure {
                    error: PipelineError::ExternalToolFailed { tool, stderr },
                    ..
                },
        } => {
            assert_eq!(tool, Tool::Converter);
            assert_eq!(stderr, "disk full");
        }
        other => panic!("unexpected action {:?}", other),
    }
}

#[test]
fn rename_failure_is_a_filesystem_error() {
    let c = cand("M/Textures", "foo.png");
    let conf = cfg(256, 2);
    let (phase, _) = start(&c);
    let (phase, _) = step(
        &conf,
        &c,
        phase,
        Event::DimensionsOk {
            width: 10,
            height: 10,
        },
    );
    let (phase, _) = step(&conf, &c, phase, Event::ToolOk);
    let (phase, _) = step(&conf, &c, phase, Event::ToolOk);
    assert_eq!(phase, Phase::Renaming);
    let (phase, action) = step(
        &conf,
        &c,
        phase,
        Event::FsErr {
            detail: "permission denied".to_string(),
        },
    );
    assert_eq!(phase, Phase::Done);
    match action {
        Action::Report {
            outcome:
                PipelineOutcome::Failure {
                    error: PipelineError::FilesystemOpError { op, detail },
                    ..
                },
        } => {
            assert_eq!(op, FsOp::Rename);
            assert_eq!(detail, "permission denied");
        }
        other => panic!("unexpected action {:?}", other),
    }
}

#[test]
fn remove_failure_is_reported_after_the_rename() {
    let c = cand("M/Textures", "foo.png");
    let conf = cfg(256, 2);
    let (phase, _) = start(&c);
    let (phase, _) = step(
        &conf,
        &c,
        phase,
        Event::DimensionsOk {
            width: 10,
            height: 10,
        },
    );
    let (phase, _) = step(&conf, &c, phase, Event::ToolOk);
    let (phase, _) = step(&conf, &c, phase, Event::ToolOk);
    let (phase, _) = step(&conf, &c, phase, Event::FsOk);
    assert_eq!(phase, Phase::Removing);
    let (phase, action) = step(
        &conf,
        &c,
        phase,
        Event::FsErr {
            detail: "in use".to_string(),
        },
    );
    assert_eq!(phase, Phase::Done);
    match action {
        Action::Report {
            outcome:
                PipelineOutcome::Failure {
                    error: PipelineError::FilesystemOpError { op, detail },
                    ..
                },
        } => {
            assert_eq!(op, FsOp::Remove);
            assert_eq!(detail, "in use");
        }
        other => panic!("unexpected action {:?}", other),
    }
}

#[test]
fn factor_is_rendered_into_the_upscaler_arguments() {
    let c = cand("M/Textures", "foo.png");
    for (f, s) in [(2u32, "2"), (4, "4"), (8, "8"), (16, "16"), (32, "32")] {
        let conf = cfg(256, f);
        let (phase, _) = start(&c);
        let (_, action) = step(
            &conf,
            &c,
            phase,
            Event::DimensionsOk {
                width: 10,
                height: 10,
            },
        );
        let (_, args) = action.command();
        assert_eq!(args[7], s);
    }
}

#[test]
fn expects_matches_each_phase() {
    let ok = Event::ToolOk;
    let dims = Event::DimensionsOk {
        width: 1,
        height: 1,
    };
    let fs = Event::FsOk;
    assert!(expects(Phase::Inspecting, &dims));
    assert!(!expects(Phase::Inspecting, &ok));
    assert!(expects(Phase::Upscaling, &ok));
    assert!(expects(Phase::ConvertingSmall, &ok));
    assert!(expects(Phase::ConvertingLarge, &ok));
    assert!(!expects(Phase::Upscaling, &fs));
    assert!(expects(Phase::Renaming, &fs));
    assert!(expects(Phase::Removing, &fs));
    assert!(!expects(Phase::Done, &ok));
    assert!(!expects(Phase::Done, &fs));
}
