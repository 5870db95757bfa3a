use overlay_shell::supervisor::{status_not_running, status_stopped, ProcessSupervisor, StopPlan};

#[test]
fn start_backend_reports_started_and_tracks_nothing() {
    let mut sup = ProcessSupervisor::new();
    let status = sup.start_backend();
    assert!(status == "Backend started");
    assert!(!sup.child_tracked);
}

#[test]
fn stop_without_child_reports_not_running() {
    let mut sup = ProcessSupervisor::new();
    assert!(matches!(sup.stop_backend(), StopPlan::NotRunning));
    assert!(status_not_running() == "Backend was not running");
}

#[test]
fn stop_with_child_terminates_and_untracks() {
    let mut sup = ProcessSupervisor::new();
    sup.record_child();
    assert!(sup.child_tracked);
    assert!(matches!(sup.stop_backend(), StopPlan::Terminate));
    assert!(!sup.child_tracked);
    assert!(status_stopped() == "Backend stopped");
    // The child is untracked even before the shell's termination attempt
    // resolves, so a second stop finds nothing.
    assert!(matches!(sup.stop_backend(), StopPlan::NotRunning));
}
