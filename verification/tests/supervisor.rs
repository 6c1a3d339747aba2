use almready_lib::handshake::{HandshakeReader, ReaderAction};
use almready_lib::probe::{HealthProbe, ProbeAction, ProbeEvent};
use almready_lib::supervisor::{
    FatalReason, Supervisor, SupervisorAction, SupervisorEvent, SupervisorState,
    FATAL_EXIT_STATUS,
};
use almready_lib::PortAnnouncement;

/// A stand-in for the handle of a child process.
#[derive(Debug, PartialEq, Eq)]
struct Child(u32);

/// What a startup did, as far as a test can see it.
#[derive(Debug, PartialEq, Eq)]
struct Outcome {
    state: SupervisorState,
    announced_ready: Option<u16>,
    killed: Vec<Child>,
    exit_status: Option<i32>,
    attempts: u32,
}

/// Runs a whole startup against a child that is described by what it prints
/// and by the attempt (counted from 1) at which its port starts to accept.
fn start_up(
    supervisor: &mut Supervisor<Child>,
    launch: Option<Child>,
    output: &[&str],
    accepts_at: Option<u32>,
) -> Outcome {
    let mut outcome = Outcome {
        state: SupervisorState::Launching,
        announced_ready: None,
        killed: Vec::new(),
        exit_status: None,
        attempts: 0,
    };
    let mut action = match launch {
        Some(child) => supervisor.step(SupervisorEvent::Launched(child)),
        None => supervisor.step(SupervisorEvent::LaunchFailed),
    };
    loop {
        action = match action {
            SupervisorAction::AwaitPort => {
                let mut reader = HandshakeReader::new();
                let mut delivered = None;
                for line in output {
                    if let ReaderAction::Deliver(a) = reader.on_line(line) {
                        delivered = Some(a);
                        break;
                    }
                }
                let announcement = match delivered {
                    Some(a) => a,
                    None => match reader.on_end() {
                        ReaderAction::Deliver(a) => a,
                        other => panic!("no delivery at the end of the output: {:?}", other),
                    },
                };
                supervisor.step(SupervisorEvent::PortDelivered(announcement))
            }
            SupervisorAction::Probe(port) => {
                let mut probe = HealthProbe::new(port);
                let mut next = probe.next_action();
                let healthy = loop {
                    next = match next {
                        ProbeAction::Connect { port: p, .. } => {
                            assert_eq!(p, port);
                            outcome.attempts += 1;
                            probe.step(ProbeEvent::Attempted(
                                accepts_at.map_or(false, |n| outcome.attempts >= n),
                            ))
                        }
                        ProbeAction::Pause(_) => probe.step(ProbeEvent::Paused),
                        ProbeAction::Finish(healthy) => break healthy,
                    };
                };
                supervisor.step(SupervisorEvent::ProbeFinished(healthy))
            }
            SupervisorAction::AnnounceReady(port) => {
                outcome.announced_ready = Some(port);
                break;
            }
            SupervisorAction::Abort(child, reason) => {
                outcome.killed.push(child);
                outcome.exit_status = Some(reason.exit_status());
                break;
            }
            SupervisorAction::Reap(child) | SupervisorAction::Refuse(child) => {
                outcome.killed.push(child);
                break;
            }
            SupervisorAction::FallBack | SupervisorAction::Nothing => break,
        };
    }
    outcome.state = supervisor.state();
    outcome
}

#[test]
fn scenario_child_announces_port_and_accepts_at_once() {
    let mut supervisor = Supervisor::new();
    let outcome = start_up(&mut supervisor, Some(Child(1)), &["PORT:54321"], Some(1));
    assert_eq!(
        outcome,
        Outcome {
            state: SupervisorState::Ready(54321),
            announced_ready: Some(54321),
            killed: vec![],
            exit_status: None,
            attempts: 1,
        }
    );
    assert!(supervisor.holds_handle());
    assert_eq!(supervisor.ready_port(), Some(54321));
    assert_eq!(supervisor.announcement(), Some(PortAnnouncement::from_raw(54321)));
}

#[test]
fn scenario_child_exits_without_output() {
    let mut supervisor = Supervisor::new();
    let outcome = start_up(&mut supervisor, Some(Child(2)), &[], Some(1));
    assert_eq!(
        outcome,
        Outcome {
            state: SupervisorState::FatalFailed(FatalReason::HandshakeFailed),
            announced_ready: None,
            killed: vec![Child(2)],
            exit_status: Some(1),
            attempts: 0,
        }
    );
    assert_ne!(outcome.exit_status, Some(0));
    assert!(!supervisor.holds_handle());
    assert_eq!(supervisor.ready_port(), None);
}

#[test]
fn scenario_nothing_ever_listens_on_the_port() {
    let mut supervisor = Supervisor::new();
    let outcome = start_up(&mut supervisor, Some(Child(3)), &["PORT:9"], None);
    assert_eq!(
        outcome,
        Outcome {
            state: SupervisorState::FatalFailed(FatalReason::HealthCheckTimeout),
            announced_ready: None,
            killed: vec![Child(3)],
            exit_status: Some(1),
            attempts: 60,
        }
    );
    assert_ne!(outcome.state, SupervisorState::FatalFailed(FatalReason::HandshakeFailed));
    assert_eq!(supervisor.announcement(), Some(PortAnnouncement::from_raw(9)));
}

#[test]
fn scenario_launch_fails_and_termination_is_a_no_op() {
    let mut supervisor: Supervisor<Child> = Supervisor::new();
    let outcome = start_up(&mut supervisor, None, &["PORT:54321"], Some(1));
    assert_eq!(
        outcome,
        Outcome {
            state: SupervisorState::FallbackNoSidecar,
            announced_ready: None,
            killed: vec![],
            exit_status: None,
            attempts: 0,
        }
    );
    assert!(!supervisor.holds_handle());
    assert!(matches!(
        supervisor.step(SupervisorEvent::TerminationRequested),
        SupervisorAction::Nothing
    ));
    assert_eq!(supervisor.state(), SupervisorState::FallbackNoSidecar);
    assert!(!supervisor.holds_handle());
}

#[test]
fn ready_after_a_slow_warm_up() {
    let mut supervisor = Supervisor::new();
    let outcome = start_up(
        &mut supervisor,
        Some(Child(4)),
        &["INFO booting", "PORT: 8000 ", "INFO ready"],
        Some(60),
    );
    assert_eq!(outcome.state, SupervisorState::Ready(8000));
    assert_eq!(outcome.announced_ready, Some(8000));
    assert_eq!(outcome.attempts, 60);
    assert!(outcome.killed.is_empty());
}

#[test]
fn announced_port_zero_is_a_failed_handshake() {
    let mut supervisor = Supervisor::new();
    let outcome = start_up(&mut supervisor, Some(Child(5)), &["PORT:0"], Some(1));
    assert_eq!(outcome.state, SupervisorState::FatalFailed(FatalReason::HandshakeFailed));
    assert_eq!(outcome.killed, vec![Child(5)]);
    assert_eq!(outcome.attempts, 0);
}

#[test]
fn announced_digits_that_do_not_fit_are_a_failed_handshake() {
    let mut supervisor = Supervisor::new();
    let outcome = start_up(&mut supervisor, Some(Child(17)), &["PORT:99999", "PORT:8080"], Some(1));
    assert_eq!(outcome.state, SupervisorState::FatalFailed(FatalReason::HandshakeFailed));
    assert_eq!(outcome.killed, vec![Child(17)]);
    assert_eq!(outcome.exit_status, Some(1));
    assert_eq!(outcome.attempts, 0);
}

#[test]
fn new_supervisor_is_launching() {
    let supervisor: Supervisor<Child> = Supervisor::new();
    assert_eq!(supervisor.state(), SupervisorState::Launching);
    assert!(!supervisor.holds_handle());
    assert_eq!(supervisor.announcement(), None);
    assert_eq!(supervisor.ready_port(), None);
}

#[test]
fn termination_before_launch_is_a_no_op() {
    let mut supervisor: Supervisor<Child> = Supervisor::new();
    assert!(matches!(
        supervisor.step(SupervisorEvent::TerminationRequested),
        SupervisorAction::Nothing
    ));
    assert_eq!(supervisor.state(), SupervisorState::Launching);
    assert!(matches!(
        supervisor.step(SupervisorEvent::Launched(Child(6))),
        SupervisorAction::AwaitPort
    ));
    assert_eq!(supervisor.state(), SupervisorState::AwaitingHandshake);
    assert!(supervisor.holds_handle());
}

#[test]
fn termination_twice_kills_once() {
    let mut supervisor = Supervisor::new();
    assert!(matches!(
        supervisor.step(SupervisorEvent::Launched(Child(7))),
        SupervisorAction::AwaitPort
    ));
    match supervisor.step(SupervisorEvent::TerminationRequested) {
        SupervisorAction::Reap(child) => assert_eq!(child, Child(7)),
        other => panic!("expected the child to be reaped, got {:?}", other),
    }
    assert_eq!(supervisor.state(), SupervisorState::Terminated);
    assert!(!supervisor.holds_handle());
    assert!(matches!(
        supervisor.step(SupervisorEvent::TerminationRequested),
        SupervisorAction::Nothing
    ));
    assert_eq!(supervisor.state(), SupervisorState::Terminated);
}

#[test]
fn termination_from_every_state_with_a_child() {
    let mut probing = Supervisor::new();
    probing.step(SupervisorEvent::Launched(Child(8)));
    probing.step(SupervisorEvent::PortDelivered(PortAnnouncement::from_raw(8000)));
    assert_eq!(probing.state(), SupervisorState::Probing);
    assert!(matches!(
        probing.step(SupervisorEvent::TerminationRequested),
        SupervisorAction::Reap(Child(8))
    ));
    assert_eq!(probing.state(), SupervisorState::Terminated);

    let mut ready = Supervisor::new();
    ready.step(SupervisorEvent::Launched(Child(9)));
    ready.step(SupervisorEvent::PortDelivered(PortAnnouncement::from_raw(8000)));
    assert!(matches!(
        ready.step(SupervisorEvent::ProbeFinished(true)),
        SupervisorAction::AnnounceReady(8000)
    ));
    assert_eq!(ready.state(), SupervisorState::Ready(8000));
    assert!(matches!(
        ready.step(SupervisorEvent::TerminationRequested),
        SupervisorAction::Reap(Child(9))
    ));
    assert_eq!(ready.state(), SupervisorState::Terminated);
    assert_eq!(ready.ready_port(), None);
}

#[test]
fn termination_after_a_fatal_failure_finds_no_handle() {
    let mut supervisor = Supervisor::new();
    supervisor.step(SupervisorEvent::Launched(Child(10)));
    assert!(matches!(
        supervisor.step(SupervisorEvent::PortDelivered(PortAnnouncement::absent())),
        SupervisorAction::Abort(Child(10), FatalReason::HandshakeFailed)
    ));
    assert!(matches!(
        supervisor.step(SupervisorEvent::TerminationRequested),
        SupervisorAction::Nothing
    ));
    assert_eq!(supervisor.state(), SupervisorState::FatalFailed(FatalReason::HandshakeFailed));
}

#[test]
fn events_after_termination_change_nothing() {
    let mut supervisor = Supervisor::new();
    supervisor.step(SupervisorEvent::Launched(Child(11)));
    supervisor.step(SupervisorEvent::TerminationRequested);
    assert!(matches!(
        supervisor.step(SupervisorEvent::PortDelivered(PortAnnouncement::absent())),
        SupervisorAction::Nothing
    ));
    assert!(matches!(
        supervisor.step(SupervisorEvent::PortDelivered(PortAnnouncement::from_raw(8000))),
        SupervisorAction::Nothing
    ));
    assert!(matches!(
        supervisor.step(SupervisorEvent::ProbeFinished(true)),
        SupervisorAction::Nothing
    ));
    assert!(matches!(
        supervisor.step(SupervisorEvent::ProbeFinished(false)),
        SupervisorAction::Nothing
    ));
    assert!(matches!(supervisor.step(SupervisorEvent::LaunchFailed), SupervisorAction::Nothing));
    assert_eq!(supervisor.state(), SupervisorState::Terminated);
    assert_eq!(supervisor.announcement(), None);
}

#[test]
fn second_child_is_refused() {
    let mut supervisor = Supervisor::new();
    supervisor.step(SupervisorEvent::Launched(Child(12)));
    assert!(matches!(
        supervisor.step(SupervisorEvent::Launched(Child(13))),
        SupervisorAction::Refuse(Child(13))
    ));
    assert_eq!(supervisor.state(), SupervisorState::AwaitingHandshake);
    assert!(matches!(
        supervisor.step(SupervisorEvent::TerminationRequested),
        SupervisorAction::Reap(Child(12))
    ));

    let mut fallback = Supervisor::new();
    assert!(matches!(fallback.step(SupervisorEvent::LaunchFailed), SupervisorAction::FallBack));
    assert!(matches!(
        fallback.step(SupervisorEvent::Launched(Child(14))),
        SupervisorAction::Refuse(Child(14))
    ));
    assert_eq!(fallback.state(), SupervisorState::FallbackNoSidecar);
    assert!(!fallback.holds_handle());
}

#[test]
fn second_delivery_is_ignored() {
    let mut supervisor = Supervisor::new();
    supervisor.step(SupervisorEvent::Launched(Child(15)));
    assert!(matches!(
        supervisor.step(SupervisorEvent::PortDelivered(PortAnnouncement::from_raw(8000))),
        SupervisorAction::Probe(8000)
    ));
    assert!(matches!(
        supervisor.step(SupervisorEvent::PortDelivered(PortAnnouncement::from_raw(9000))),
        SupervisorAction::Nothing
    ));
    assert!(matches!(
        supervisor.step(SupervisorEvent::PortDelivered(PortAnnouncement::absent())),
        SupervisorAction::Nothing
    ));
    assert_eq!(supervisor.announcement(), Some(PortAnnouncement::from_raw(8000)));
    assert!(matches!(
        supervisor.step(SupervisorEvent::ProbeFinished(true)),
        SupervisorAction::AnnounceReady(8000)
    ));
    assert!(matches!(
        supervisor.step(SupervisorEvent::ProbeFinished(true)),
        SupervisorAction::Nothing
    ));
    assert!(matches!(
        supervisor.step(SupervisorEvent::ProbeFinished(false)),
        SupervisorAction::Nothing
    ));
    assert_eq!(supervisor.state(), SupervisorState::Ready(8000));
}

#[test]
fn events_out_of_turn_are_ignored() {
    let mut supervisor: Supervisor<Child> = Supervisor::new();
    assert!(matches!(
        supervisor.step(SupervisorEvent::PortDelivered(PortAnnouncement::from_raw(8000))),
        SupervisorAction::Nothing
    ));
    assert!(matches!(
        supervisor.step(SupervisorEvent::ProbeFinished(true)),
        SupervisorAction::Nothing
    ));
    assert_eq!(supervisor.state(), SupervisorState::Launching);
    supervisor.step(SupervisorEvent::Launched(Child(16)));
    assert!(matches!(
        supervisor.step(SupervisorEvent::ProbeFinished(false)),
        SupervisorAction::Nothing
    ));
    assert!(matches!(supervisor.step(SupervisorEvent::LaunchFailed), SupervisorAction::Nothing));
    assert_eq!(supervisor.state(), SupervisorState::AwaitingHandshake);
    assert!(supervisor.holds_handle());
}

#[test]
fn fatal_reasons_in_words() {
    assert_eq!(FatalReason::HandshakeFailed.message(), "handshake failed");
    assert_eq!(FatalReason::HealthCheckTimeout.message(), "health check timeout");
    assert_eq!(FATAL_EXIT_STATUS, 1);
    assert_eq!(FatalReason::HandshakeFailed.exit_status(), 1);
    assert_eq!(FatalReason::HealthCheckTimeout.exit_status(), 1);
}
