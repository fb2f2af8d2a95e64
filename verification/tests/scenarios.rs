use blurlock::Display;
use blurlock::config::{load_settings, ConfigMap};
use blurlock::errors::{CaptureError, StartupError};
use blurlock::pipeline::{plan_locker_invocation, CaptureResult, LockerVariant};
use blurlock::run::{advance, RunPhase, RunStep};

#[test]
fn two_displays_all_tools_succeed() {
    let displays = vec![
        Display::new("HDMI-A-1".to_string(), 0, 0, 1920, 1080).unwrap(),
        Display::new("DP-1".to_string(), 1920, 0, 1920, 1080).unwrap(),
    ];
    let mut cfg = ConfigMap::new();
    cfg.insert("external_command".to_string(), "filter $IN".to_string());
    cfg.insert("lock_args".to_string(), "-f".to_string());
    let settings = load_settings(&cfg).expect("both keys present");

    // Both capture tasks succeed, one per display, each with its temp file.
    let outcomes: Vec<Result<CaptureResult, CaptureError>> = displays
        .iter()
        .enumerate()
        .map(|(i, d)| {
            Ok(CaptureResult {
                display_name: d.name.clone(),
                image_path: format!("/tmp/shot-{}.png", i),
            })
        })
        .collect();

    let c = plan_locker_invocation(&outcomes, settings.lock_args.as_str(), LockerVariant::Sway)
        .expect("all tasks succeeded");
    assert_eq!(c.program, "swaylock");
    assert_eq!(
        c.args,
        vec!["-f", "-i", "HDMI-A-1:/tmp/shot-0.png", "-i", "DP-1:/tmp/shot-1.png"]
    );
    // One -i name:path pair per display, count exact.
    let image_flags = c.args.iter().filter(|a| a.as_str() == "-i").count();
    assert_eq!(image_flags, displays.len());
}

#[test]
fn screenshot_failure_short_circuits_before_locking() {
    let outcomes: Vec<Result<CaptureResult, CaptureError>> =
        vec![Err(CaptureError::ToolFailed("permission denied".to_string()))];
    let e = plan_locker_invocation(&outcomes, "-f", LockerVariant::Sway)
        .expect_err("the run must abort");
    let message = e.message();
    assert!(message.contains("permission denied"));
}

#[test]
fn filter_failure_short_circuits_before_locking() {
    let outcomes: Vec<Result<CaptureResult, CaptureError>> = vec![
        Ok(CaptureResult { display_name: "HDMI-A-1".to_string(), image_path: "/tmp/a".to_string() }),
        Err(CaptureError::ModifierFailed("unknown option".to_string())),
    ];
    assert!(plan_locker_invocation(&outcomes, "", LockerVariant::I3).is_err());
}

#[test]
fn missing_external_command_fails_at_startup() {
    let mut cfg = ConfigMap::new();
    cfg.insert("lock_args".to_string(), "-f".to_string());
    // The startup check fails before any display enumeration can happen.
    let e = load_settings(&cfg).expect_err("external_command is required");
    match e {
        StartupError::MissingKey(k) => assert_eq!(k, "external_command"),
        other => panic!("unexpected error: {:?}", other),
    }
}

#[test]
fn run_phases_advance_in_order() {
    let mut phase = RunPhase::Idle;
    phase = advance(phase, RunStep::Started);
    assert_eq!(phase, RunPhase::Enumerating);
    phase = advance(phase, RunStep::DisplaysEnumerated);
    assert_eq!(phase, RunPhase::Capturing);
    phase = advance(phase, RunStep::AllTasksSucceeded);
    assert_eq!(phase, RunPhase::Aggregated);
    phase = advance(phase, RunStep::LockerStarted);
    assert_eq!(phase, RunPhase::Locking);
    phase = advance(phase, RunStep::LockerExited);
    assert_eq!(phase, RunPhase::Done);
}

#[test]
fn failure_aborts_from_every_phase() {
    for phase in [
        RunPhase::Idle,
        RunPhase::Enumerating,
        RunPhase::Capturing,
        RunPhase::Aggregated,
        RunPhase::Locking,
        RunPhase::Done,
        RunPhase::Aborted,
    ] {
        assert_eq!(advance(phase, RunStep::Failed), RunPhase::Aborted);
    }
}

#[test]
fn aborted_run_never_reaches_locking() {
    // Out-of-order steps abort, and an aborted run stays aborted.
    assert_eq!(advance(RunPhase::Capturing, RunStep::LockerStarted), RunPhase::Aborted);
    assert_eq!(advance(RunPhase::Aborted, RunStep::LockerStarted), RunPhase::Aborted);
    assert_eq!(advance(RunPhase::Aborted, RunStep::AllTasksSucceeded), RunPhase::Aborted);
}

#[test]
fn empty_display_list_locks_without_images() {
    let outcomes: Vec<Result<CaptureResult, CaptureError>> = Vec::new();
    let c = plan_locker_invocation(&outcomes, "-f", LockerVariant::Sway).expect("nothing failed");
    assert_eq!(c.program, "swaylock");
    assert_eq!(c.args, vec!["-f"]);
}
