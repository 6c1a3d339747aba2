use almready_lib::startup::rehearse;
use almready_lib::supervisor::{FatalReason, SupervisorAction, SupervisorState};
use almready_lib::PortAnnouncement;

fn output(text: &[&str]) -> Vec<String> {
    text.iter().map(|l| l.to_string()).collect()
}

#[test]
fn rehearsal_ready_within_one_attempt() {
    let (supervisor, action) = rehearse(Some(41u32), &output(&["PORT:54321"]), &vec![true]);
    assert_eq!(supervisor.state(), SupervisorState::Ready(54321));
    assert!(matches!(action, SupervisorAction::AnnounceReady(54321)));
    assert!(supervisor.holds_handle());
}

#[test]
fn rehearsal_silent_child_is_fatal() {
    let (supervisor, action) = rehearse(Some(42u32), &output(&[]), &vec![true; 60]);
    assert_eq!(supervisor.state(), SupervisorState::FatalFailed(FatalReason::HandshakeFailed));
    assert!(matches!(action, SupervisorAction::Abort(42, FatalReason::HandshakeFailed)));
    assert!(!supervisor.holds_handle());
    assert_eq!(supervisor.announcement(), Some(PortAnnouncement::absent()));
}

#[test]
fn rehearsal_unreachable_port_times_out() {
    let (supervisor, action) = rehearse(Some(43u32), &output(&["PORT:9"]), &vec![false; 60]);
    assert_eq!(supervisor.state(), SupervisorState::FatalFailed(FatalReason::HealthCheckTimeout));
    assert!(matches!(action, SupervisorAction::Abort(43, FatalReason::HealthCheckTimeout)));
    assert!(!supervisor.holds_handle());
}

#[test]
fn rehearsal_failed_launch_falls_back() {
    let (supervisor, action) = rehearse(None::<u32>, &output(&["PORT:54321"]), &vec![true]);
    assert_eq!(supervisor.state(), SupervisorState::FallbackNoSidecar);
    assert!(matches!(action, SupervisorAction::FallBack));
    assert!(!supervisor.holds_handle());
    assert_eq!(supervisor.announcement(), None);
}

#[test]
fn rehearsal_boundary_attempts() {
    let mut sixtieth = vec![false; 59];
    sixtieth.push(true);
    let (ready, _) = rehearse(Some(1u32), &output(&["PORT:8000"]), &sixtieth);
    assert_eq!(ready.state(), SupervisorState::Ready(8000));

    let mut too_late = vec![false; 60];
    too_late.push(true);
    let (failed, _) = rehearse(Some(1u32), &output(&["PORT:8000"]), &too_late);
    assert_eq!(failed.state(), SupervisorState::FatalFailed(FatalReason::HealthCheckTimeout));
}

#[test]
fn rehearsal_is_left_probing_where_outcomes_run_out() {
    let (supervisor, action) = rehearse(Some(1u32), &output(&["x", "PORT:8000"]), &vec![false; 3]);
    assert_eq!(supervisor.state(), SupervisorState::Probing);
    assert!(matches!(action, SupervisorAction::Probe(8000)));
    assert!(supervisor.holds_handle());
}

#[test]
fn rehearsal_digits_that_do_not_fit_fail_the_handshake() {
    let (supervisor, action) =
        rehearse(Some(44u32), &output(&["PORT:99999", "PORT:8080"]), &vec![true; 60]);
    assert_eq!(supervisor.state(), SupervisorState::FatalFailed(FatalReason::HandshakeFailed));
    assert!(matches!(action, SupervisorAction::Abort(44, FatalReason::HandshakeFailed)));
    assert!(!supervisor.holds_handle());
    assert_eq!(supervisor.announcement(), Some(PortAnnouncement::absent()));
}

#[test]
fn rehearsal_with_short_records() {
    let (ready, _) = rehearse(Some(1u32), &output(&["PORT:54321"]), &vec![false, true]);
    assert_eq!(ready.state(), SupervisorState::Ready(54321));
    let (silent, _) = rehearse(Some(1u32), &output(&["nothing"]), &vec![]);
    assert_eq!(silent.state(), SupervisorState::FatalFailed(FatalReason::HandshakeFailed));
    let (fallback, _) = rehearse(None::<u32>, &output(&[]), &vec![]);
    assert_eq!(fallback.state(), SupervisorState::FallbackNoSidecar);
}
