use app_bootstrap::config::allows;
use app_bootstrap::config::main_window_label;
use app_bootstrap::config::severity_rank;
use app_bootstrap::config::BuildMode;
use app_bootstrap::config::LogConfig;
use app_bootstrap::config::Severity;
use app_bootstrap::machine::run;
use app_bootstrap::machine::BootState;
use app_bootstrap::machine::Bootstrapper;
use app_bootstrap::machine::FailReason;
use app_bootstrap::report::exit_report;

const INFO_CONFIG: LogConfig = LogConfig { min_severity: Severity::Info };

#[test]
fn severity_ranks_are_ordered() {
    assert_eq!(severity_rank(Severity::Trace), 0);
    assert_eq!(severity_rank(Severity::Debug), 1);
    assert_eq!(severity_rank(Severity::Info), 2);
    assert_eq!(severity_rank(Severity::Warn), 3);
    assert_eq!(severity_rank(Severity::Error), 4);
}

#[test]
fn informational_minimum_suppresses_below_it() {
    assert!(!allows(&INFO_CONFIG, Severity::Trace));
    assert!(!allows(&INFO_CONFIG, Severity::Debug));
    assert!(allows(&INFO_CONFIG, Severity::Info));
    assert!(allows(&INFO_CONFIG, Severity::Warn));
    assert!(allows(&INFO_CONFIG, Severity::Error));
}

#[test]
fn main_window_label_is_main() {
    assert_eq!(main_window_label(), "main");
}

#[test]
fn new_bootstrapper_starts_clean() {
    let b = Bootstrapper::new(BuildMode::Debug);
    assert_eq!(b.mode, BuildMode::Debug);
    assert_eq!(b.state, BootState::RegisterDialogPending);
    assert_eq!(b.window_present, None);
    assert_eq!(b.maximize_requests, 0);
    assert_eq!(b.log_attachments, 0);
    assert_eq!(b.log_config, None);
    assert!(!b.run_entered);
}

#[test]
fn present_window_gets_one_maximize_request() {
    let b = run(BuildMode::Debug, true, true, true, true);
    assert_eq!(b.window_present, Some(true));
    assert_eq!(b.maximize_requests, 1);
    assert_eq!(b.state, BootState::Exited);
}

#[test]
fn absent_window_skips_maximize_without_error() {
    let b = run(BuildMode::Debug, false, true, true, true);
    assert_eq!(b.window_present, Some(false));
    assert_eq!(b.maximize_requests, 0);
    assert_eq!(b.state, BootState::Exited);
    assert!(exit_report(&b).is_none());
}

#[test]
fn debug_build_attaches_logging_once_at_info() {
    let b = run(BuildMode::Debug, true, true, true, true);
    assert_eq!(b.log_attachments, 1);
    assert_eq!(b.log_config, Some(INFO_CONFIG));
}

#[test]
fn release_build_never_attaches_logging() {
    let b = run(BuildMode::Release, true, true, true, true);
    assert_eq!(b.log_attachments, 0);
    assert_eq!(b.log_config, None);
    assert_eq!(b.state, BootState::Exited);
}

#[test]
fn maximize_failure_aborts_before_run_loop() {
    let b = run(BuildMode::Debug, true, false, true, true);
    assert_eq!(b.state, BootState::Failed(FailReason::MaximizeFailed));
    assert!(!b.run_entered);
    assert_eq!(b.log_attachments, 0);
    let report = exit_report(&b).expect("a failed startup owes a report");
    assert_ne!(report.code, 0);
    assert_eq!(report.message, "failed to maximize the main window");
}

#[test]
fn log_attach_failure_aborts_before_run_loop() {
    let b = run(BuildMode::Debug, true, true, false, true);
    assert_eq!(b.state, BootState::Failed(FailReason::LogAttachFailed));
    assert!(!b.run_entered);
    let report = exit_report(&b).expect("a failed startup owes a report");
    assert_ne!(report.code, 0);
    assert_eq!(report.message, "failed to attach the log plugin");
}

#[test]
fn run_loop_failure_exits_nonzero_with_diagnostic() {
    let b = run(BuildMode::Release, true, true, true, false);
    assert_eq!(b.state, BootState::Failed(FailReason::RunLoopFailed));
    assert!(b.run_entered);
    let report = exit_report(&b).expect("a failed run loop owes a report");
    assert_ne!(report.code, 0);
    assert_eq!(report.message, "error while running tauri application");
}

#[test]
fn successful_run_owes_no_report() {
    let b = run(BuildMode::Debug, true, true, true, true);
    assert!(exit_report(&b).is_none());
}

#[test]
fn step_by_step_debug_startup() {
    let mut b = Bootstrapper::new(BuildMode::Debug);
    b.dialog_registered();
    assert_eq!(b.state, BootState::RegisterFsPending);
    b.fs_registered();
    assert_eq!(b.state, BootState::WindowLookupPending);
    let maximize_now = b.window_looked_up(true);
    assert!(maximize_now);
    assert_eq!(b.state, BootState::MaximizePending);
    b.maximize_finished(true);
    assert_eq!(b.state, BootState::LogDecisionPending);
    let cfg = b.decide_logging();
    assert_eq!(cfg, Some(INFO_CONFIG));
    assert_eq!(b.state, BootState::LogAttachPending);
    b.log_attach_finished(true);
    assert_eq!(b.state, BootState::ReadyToRun);
    b.enter_run_loop();
    assert_eq!(b.state, BootState::Running);
    assert!(b.run_entered);
    b.run_loop_finished(true);
    assert_eq!(b.state, BootState::Exited);
}

#[test]
fn step_by_step_release_skips_log_attachment() {
    let mut b = Bootstrapper::new(BuildMode::Release);
    b.dialog_registered();
    b.fs_registered();
    let maximize_now = b.window_looked_up(false);
    assert!(!maximize_now);
    assert_eq!(b.state, BootState::LogDecisionPending);
    let cfg = b.decide_logging();
    assert_eq!(cfg, None);
    assert_eq!(b.state, BootState::ReadyToRun);
    assert_eq!(b.log_attachments, 0);
}

#[test]
fn same_window_differs_only_in_logging_across_modes() {
    let debug_run = run(BuildMode::Debug, true, true, true, true);
    let release_run = run(BuildMode::Release, true, true, true, true);
    assert_eq!(debug_run.maximize_requests, release_run.maximize_requests);
    assert_eq!(debug_run.state, release_run.state);
    assert_eq!(debug_run.run_entered, release_run.run_entered);
    assert_eq!(debug_run.log_attachments, 1);
    assert_eq!(release_run.log_attachments, 0);
}
