//! The supervisor: the lifecycle of one sidecar from launch to readiness,
//! failure or teardown.
//!
//! The supervisor owns the handle of the child process while the child runs.
//! It performs no action itself: each event yields the next state and the
//! action that the caller is to perform. A handle leaves the supervisor
//! inside the action that ends the child, so that only one actor can ever
//! end it.

use crate::announcement::{PortAnnouncement, ABSENT_PORT};
use vstd::prelude::*;

verus! {

/// The exit status of the supervising process after a fatal failure.
pub const FATAL_EXIT_STATUS: i32 = 1;

/// Why startup failed for good.
#[derive(Clone, Copy, Debug, PartialEq, Eq, Structural)]
pub enum FatalReason {
    /// The child's output ended without a port.
    HandshakeFailed,
    /// The port never accepted a connection within the probe's budget.
    HealthCheckTimeout,
}

impl FatalReason {
    /// The status with which the supervising process ends after this
    /// failure: never zero.
    pub fn exit_status(&self) -> (status: i32)
        ensures
            status == FATAL_EXIT_STATUS,
            status != 0,
    {
        FATAL_EXIT_STATUS
    }

    /// The reason in words.
    pub fn message(&self) -> (text: &'static str)
        ensures
            *self == FatalReason::HandshakeFailed ==> text@ == "handshake failed"@,
            *self == FatalReason::HealthCheckTimeout ==> text@ == "health check timeout"@,
    {
        match self {
            FatalReason::HandshakeFailed => "handshake failed",
            FatalReason::HealthCheckTimeout => "health check timeout",
        }
    }
}

/// The states of the lifecycle.
#[derive(Clone, Copy, Debug, PartialEq, Eq, Structural)]
pub enum SupervisorState {
    /// The child is being launched.
    Launching,
    /// The child runs; its port is not known yet.
    AwaitingHandshake,
    /// The port is known; the health probe runs.
    Probing,
    /// The child accepts connections on this port.
    Ready(u16),
    /// No child could be launched; a backend is expected to run elsewhere.
    FallbackNoSidecar,
    /// Startup failed for good.
    FatalFailed(FatalReason),
    /// The child was ended on request.
    Terminated,
}

/// What happens to a supervisor. `H` is the handle of the child process.
#[derive(Debug)]
pub enum SupervisorEvent<H> {
    /// The child could not be launched.
    LaunchFailed,
    /// The child was launched; this is its handle.
    Launched(H),
    /// The handshake reader delivered its one value.
    PortDelivered(PortAnnouncement),
    /// The health probe ended; `true` if the port accepted a connection.
    ProbeFinished(bool),
    /// Shutdown was requested from outside.
    TerminationRequested,
}

/// What the caller does after an event.
#[derive(Debug)]
pub enum SupervisorAction<H> {
    /// Nothing.
    Nothing,
    /// Start reading the child's output and wait for the port.
    AwaitPort,
    /// Probe this port.
    Probe(u16),
    /// Tell the consumer that the backend is ready on this port.
    AnnounceReady(u16),
    /// Go on without a sidecar.
    FallBack,
    /// Kill the child and wait for its exit, then end the supervising
    /// process with the exit status of the reason.
    Abort(H, FatalReason),
    /// Kill the child and wait for its exit.
    Reap(H),
    /// The handle was not accepted, because a launch was no longer awaited:
    /// the supervisor never holds a second child.
    Refuse(H),
}

/// The state of a supervisor as contracts see it.
pub struct SupervisorView<H> {
    /// The state of the lifecycle.
    pub state: SupervisorState,
    /// The handle of the child, while the supervisor holds it.
    pub handle: Option<H>,
    /// The value the handshake reader delivered, once it has.
    pub announcement: Option<PortAnnouncement>,
}

/// How far a state is along the lifecycle. Every change of state raises it.
pub open spec fn rank(state: SupervisorState) -> nat {
    match state {
        SupervisorState::Launching => 0,
        SupervisorState::AwaitingHandshake => 1,
        SupervisorState::Probing => 2,
        SupervisorState::Ready(_) => 3,
        SupervisorState::FallbackNoSidecar => 4,
        SupervisorState::FatalFailed(_) => 4,
        SupervisorState::Terminated => 4,
    }
}

/// The states that nothing leaves.
pub open spec fn terminal(state: SupervisorState) -> bool {
    match state {
        SupervisorState::FallbackNoSidecar => true,
        SupervisorState::FatalFailed(_) => true,
        SupervisorState::Terminated => true,
        _ => false,
    }
}

impl<H> SupervisorView<H> {
    /// A supervisor before launch.
    pub open spec fn initial() -> SupervisorView<H> {
        SupervisorView { state: SupervisorState::Launching, handle: None, announcement: None }
    }

    /// What holds of every supervisor: it holds a handle exactly while the
    /// child runs, and its state agrees with what was delivered.
    pub open spec fn wf(self) -> bool {
        match self.state {
            SupervisorState::Launching => self.handle is None && self.announcement is None,
            SupervisorState::FallbackNoSidecar => self.handle is None && self.announcement is None,
            SupervisorState::AwaitingHandshake => self.handle is Some && self.announcement is None,
            SupervisorState::Probing => {
                &&& self.handle is Some
                &&& self.announcement is Some
                &&& self.announcement->0.raw != ABSENT_PORT
            },
            SupervisorState::Ready(port) => {
                &&& self.handle is Some
                &&& self.announcement == Some(PortAnnouncement { raw: port })
                &&& port != ABSENT_PORT
            },
            SupervisorState::FatalFailed(FatalReason::HandshakeFailed) => {
                &&& self.handle is None
                &&& self.announcement == Some(PortAnnouncement { raw: ABSENT_PORT })
            },
            SupervisorState::FatalFailed(FatalReason::HealthCheckTimeout) => {
                &&& self.handle is None
                &&& self.announcement is Some
                &&& self.announcement->0.raw != ABSENT_PORT
            },
            SupervisorState::Terminated => self.handle is None,
        }
    }

    /// The next state and the caller's action on an event. An event that the
    /// state does not await changes nothing.
    pub open spec fn after(self, event: SupervisorEvent<H>) -> (
        SupervisorView<H>,
        SupervisorAction<H>,
    ) {
        match event {
            SupervisorEvent::LaunchFailed => if self.state == SupervisorState::Launching {
                (
                    SupervisorView { state: SupervisorState::FallbackNoSidecar, ..self },
                    SupervisorAction::FallBack,
                )
            } else {
                (self, SupervisorAction::Nothing)
            },
            SupervisorEvent::Launched(handle) => if self.state == SupervisorState::Launching {
                (
                    SupervisorView {
                        state: SupervisorState::AwaitingHandshake,
                        handle: Some(handle),
                        ..self
                    },
                    SupervisorAction::AwaitPort,
                )
            } else {
                (self, SupervisorAction::Refuse(handle))
            },
            SupervisorEvent::PortDelivered(announcement) => if self.state
                == SupervisorState::AwaitingHandshake && self.handle is Some {
                if announcement.raw == ABSENT_PORT {
                    (
                        SupervisorView {
                            state: SupervisorState::FatalFailed(FatalReason::HandshakeFailed),
                            handle: None,
                            announcement: Some(announcement),
                        },
                        SupervisorAction::Abort(self.handle->0, FatalReason::HandshakeFailed),
                    )
                } else {
                    (
                        SupervisorView {
                            state: SupervisorState::Probing,
                            announcement: Some(announcement),
                            ..self
                        },
                        SupervisorAction::Probe(announcement.raw),
                    )
                }
            } else {
                (self, SupervisorAction::Nothing)
            },
            SupervisorEvent::ProbeFinished(healthy) => if self.state == SupervisorState::Probing
                && self.handle is Some && self.announcement is Some {
                if healthy {
                    (
                        SupervisorView {
                            state: SupervisorState::Ready(self.announcement->0.raw),
                            ..self
                        },
                        SupervisorAction::AnnounceReady(self.announcement->0.raw),
                    )
                } else {
                    (
                        SupervisorView {
                            state: SupervisorState::FatalFailed(FatalReason::HealthCheckTimeout),
                            handle: None,
                            ..self
                        },
                        SupervisorAction::Abort(self.handle->0, FatalReason::HealthCheckTimeout),
                    )
                }
            } else {
                (self, SupervisorAction::Nothing)
            },
            SupervisorEvent::TerminationRequested => match self.handle {
                Some(handle) => (
                    SupervisorView { state: SupervisorState::Terminated, handle: None, ..self },
                    SupervisorAction::Reap(handle),
                ),
                None => (self, SupervisorAction::Nothing),
            },
        }
    }
}

/// The supervisor of one sidecar. `H` is the handle of the child process.
#[derive(Debug)]
pub struct Supervisor<H> {
    state: SupervisorState,
    handle: Option<H>,
    announcement: Option<PortAnnouncement>,
}

impl<H> View for Supervisor<H> {
    type V = SupervisorView<H>;

    closed spec fn view(&self) -> SupervisorView<H> {
        SupervisorView { state: self.state, handle: self.handle, announcement: self.announcement }
    }
}

impl<H> Supervisor<H> {
    #[verifier::type_invariant]
    spec fn well_formed(self) -> bool {
        self@.wf()
    }

    /// A supervisor before launch: it holds no handle and knows no port.
    pub fn new() -> (supervisor: Self)
        ensures
            supervisor@ == SupervisorView::<H>::initial(),
            supervisor@.wf(),
    {
        Supervisor { state: SupervisorState::Launching, handle: None, announcement: None }
    }

    /// The state of the lifecycle.
    pub fn state(&self) -> (state: SupervisorState)
        ensures
            state == self@.state,
    {
        self.state
    }

    /// True while the supervisor holds the handle of a running child.
    pub fn holds_handle(&self) -> (held: bool)
        ensures
            held == self@.handle is Some,
    {
        self.handle.is_some()
    }

    /// The value the handshake reader delivered, once it has.
    pub fn announcement(&self) -> (announcement: Option<PortAnnouncement>)
        ensures
            announcement == self@.announcement,
    {
        self.announcement
    }

    /// The port on which the backend is ready, if it is.
    pub fn ready_port(&self) -> (port: Option<u16>)
        ensures
            port == (match self@.state {
                SupervisorState::Ready(p) => Some(p),
                _ => None,
            }),
    {
        match self.state {
            SupervisorState::Ready(p) => Some(p),
            _ => None,
        }
    }

    /// Takes an event and says what the caller is to do.
    pub fn step(&mut self, event: SupervisorEvent<H>) -> (action: SupervisorAction<H>)
        ensures
            old(self)@.wf(),
            (final(self)@, action) == old(self)@.after(event),
            final(self)@.wf(),
    {
        proof {
            use_type_invariant(&*self);
        }
        let mut before = Supervisor {
            state: SupervisorState::Terminated,
            handle: None,
            announcement: None,
        };
        core::mem::swap(self, &mut before);
        let Supervisor { state, handle, announcement } = before;
        match event {
            SupervisorEvent::LaunchFailed => match state {
                SupervisorState::Launching => {
                    *self = Supervisor {
                        state: SupervisorState::FallbackNoSidecar,
                        handle,
                        announcement,
                    };
                    SupervisorAction::FallBack
                },
                _ => {
                    *self = Supervisor { state, handle, announcement };
                    SupervisorAction::Nothing
                },
            },
            SupervisorEvent::Launched(child) => match state {
                SupervisorState::Launching => {
                    *self = Supervisor {
                        state: SupervisorState::AwaitingHandshake,
                        handle: Some(child),
                        announcement,
                    };
                    SupervisorAction::AwaitPort
                },
                _ => {
                    *self = Supervisor { state, handle, announcement };
                    SupervisorAction::Refuse(child)
                },
            },
            SupervisorEvent::PortDelivered(delivered) => match (state, handle) {
                (SupervisorState::AwaitingHandshake, Some(child)) => {
                    if delivered.is_absent() {
                        *self = Supervisor {
                            state: SupervisorState::FatalFailed(FatalReason::HandshakeFailed),
                            handle: None,
                            announcement: Some(delivered),
                        };
                        SupervisorAction::Abort(child, FatalReason::HandshakeFailed)
                    } else {
                        *self = Supervisor {
                            state: SupervisorState::Probing,
                            handle: Some(child),
                            announcement: Some(delivered),
                        };
                        SupervisorAction::Probe(delivered.raw)
                    }
                },
                (state, handle) => {
                    *self = Supervisor { state, handle, announcement };
                    SupervisorAction::Nothing
                },
            },
            SupervisorEvent::ProbeFinished(healthy) => match (state, handle, announcement) {
                (SupervisorState::Probing, Some(child), Some(delivered)) => {
                    if healthy {
                        *self = Supervisor {
                            state: SupervisorState::Ready(delivered.raw),
                            handle: Some(child),
                            announcement: Some(delivered),
                        };
                        SupervisorAction::AnnounceReady(delivered.raw)
                    } else {
                        *self = Supervisor {
                            state: SupervisorState::FatalFailed(FatalReason::HealthCheckTimeout),
                            handle: None,
                            announcement: Some(delivered),
                        };
                        SupervisorAction::Abort(child, FatalReason::HealthCheckTimeout)
                    }
                },
                (state, handle, announcement) => {
                    *self = Supervisor { state, handle, announcement };
                    SupervisorAction::Nothing
                },
            },
            SupervisorEvent::TerminationRequested => match handle {
                Some(child) => {
                    *self = Supervisor {
                        state: SupervisorState::Terminated,
                        handle: None,
                        announcement,
                    };
                    SupervisorAction::Reap(child)
                },
                None => {
                    *self = Supervisor { state, handle: None, announcement };
                    SupervisorAction::Nothing
                },
            },
        }
    }
}

/// The supervisor after a series of events, and the actions it asked for,
/// one for each event.
pub open spec fn run<H>(view: SupervisorView<H>, events: Seq<SupervisorEvent<H>>) -> (
    SupervisorView<H>,
    Seq<SupervisorAction<H>>,
)
    decreases events.len(),
{
    if events.len() == 0 {
        (view, Seq::empty())
    } else {
        let first = view.after(events.first());
        let rest = run(first.0, events.drop_first());
        (rest.0, seq![first.1] + rest.1)
    }
}

/// How many of the actions take a child into the supervisor's care.
pub open spec fn accepted<H>(actions: Seq<SupervisorAction<H>>) -> nat
    decreases actions.len(),
{
    if actions.len() == 0 {
        0
    } else {
        accepted(actions.drop_first()) + (if actions.first() is AwaitPort {
            1nat
        } else {
            0nat
        })
    }
}

/// How many of the actions have a child killed.
pub open spec fn kills<H>(actions: Seq<SupervisorAction<H>>) -> nat
    decreases actions.len(),
{
    if actions.len() == 0 {
        0
    } else {
        kills(actions.drop_first()) + (if actions.first() is Abort || actions.first() is Reap {
            1nat
        } else {
            0nat
        })
    }
}

/// One if the supervisor holds a handle, zero if not.
pub open spec fn held<H>(view: SupervisorView<H>) -> nat {
    if view.handle is Some {
        1
    } else {
        0
    }
}

/// Every event leaves a supervisor well formed.
pub proof fn law_step_keeps_well_formed<H>(view: SupervisorView<H>, event: SupervisorEvent<H>)
    requires
        view.wf(),
    ensures
        view.after(event).0.wf(),
{
}

/// States only advance: an event leaves the state as it is or moves it
/// further along the lifecycle, so no state is entered twice. A terminal
/// state is never left, and nothing about the supervisor changes in it.
pub proof fn law_states_only_advance<H>(view: SupervisorView<H>, event: SupervisorEvent<H>)
    requires
        view.wf(),
    ensures
        view.after(event).0.state == view.state || rank(view.after(event).0.state) > rank(
            view.state,
        ),
        terminal(view.state) ==> view.after(event).0 == view,
        terminal(view.state) ==> view.after(event).1 is Nothing || view.after(event).1 is Refuse,
{
}

/// Termination where no handle is held changes nothing and asks for nothing:
/// before the launch has ended, in fallback mode, after a fatal failure and
/// after an earlier termination.
pub proof fn law_termination_without_handle<H>(view: SupervisorView<H>)
    requires
        view.wf(),
        view.state == SupervisorState::Launching || terminal(view.state),
    ensures
        view.handle is None,
        view.after(SupervisorEvent::TerminationRequested) == (view, SupervisorAction::<H>::Nothing),
{
}

/// Termination while a child runs hands out its handle to be reaped and
/// leaves the supervisor terminated, from each of the states in which a
/// child runs.
pub proof fn law_termination_with_handle<H>(view: SupervisorView<H>)
    requires
        view.wf(),
        view.state == SupervisorState::AwaitingHandshake || view.state == SupervisorState::Probing
            || view.state is Ready,
    ensures
        view.handle is Some,
        view.after(SupervisorEvent::TerminationRequested).0.state == SupervisorState::Terminated,
        view.after(SupervisorEvent::TerminationRequested).0.handle is None,
        view.after(SupervisorEvent::TerminationRequested).1 == SupervisorAction::Reap(
            view.handle->0,
        ),
{
}

/// Termination is idempotent: whatever the state, a second request right
/// after the first changes nothing and kills nothing.
pub proof fn law_termination_is_idempotent<H>(view: SupervisorView<H>)
    requires
        view.wf(),
    ensures
        ({
            let once = view.after(SupervisorEvent::TerminationRequested);
            let twice = once.0.after(SupervisorEvent::TerminationRequested);
            &&& twice.0 == once.0
            &&& twice.1 is Nothing
        }),
{
}

/// The supervisor becomes ready in one way only: the probe of a delivered
/// port that is not the sentinel ends healthy. The port that is announced is
/// the one that was delivered.
pub proof fn law_ready_needs_valid_port<H>(view: SupervisorView<H>, event: SupervisorEvent<H>)
    requires
        view.wf(),
        !(view.state is Ready),
        view.after(event).0.state is Ready,
    ensures
        view.state == SupervisorState::Probing,
        event == SupervisorEvent::<H>::ProbeFinished(true),
        view.announcement is Some,
        view.announcement->0.raw != ABSENT_PORT,
        view.after(event).0.state == SupervisorState::Ready(view.announcement->0.raw),
        view.after(event).1 == SupervisorAction::<H>::AnnounceReady(view.announcement->0.raw),
{
}

/// Readiness is announced only on the step that makes the supervisor ready.
pub proof fn law_ready_is_announced_once<H>(view: SupervisorView<H>, event: SupervisorEvent<H>)
    requires
        view.wf(),
    ensures
        view.after(event).1 is AnnounceReady <==> !(view.state is Ready) && view.after(
            event,
        ).0.state is Ready,
{
}

/// A fatal failure comes from exactly two steps: the sentinel is delivered
/// while the handshake is awaited, or the probe fails. Either hands out the
/// child's handle to be killed, and the reason says which of the two it was.
pub proof fn law_fatal_failures<H>(view: SupervisorView<H>, event: SupervisorEvent<H>)
    requires
        view.wf(),
    ensures
        view.after(event).1 is Abort <==> (view.state == SupervisorState::AwaitingHandshake
            && event is PortDelivered && event->PortDelivered_0.raw == ABSENT_PORT) || (view.state
            == SupervisorState::Probing && event == SupervisorEvent::<H>::ProbeFinished(false)),
        view.after(event).1 is Abort ==> view.handle is Some && view.after(event).1->Abort_0
            == view.handle->0 && view.after(event).0.state == SupervisorState::FatalFailed(
            view.after(event).1->Abort_1,
        ),
        view.after(event).1 is Abort && event is PortDelivered ==> view.after(event).1->Abort_1
            == FatalReason::HandshakeFailed,
        view.after(event).1 is Abort && event is ProbeFinished ==> view.after(event).1->Abort_1
            == FatalReason::HealthCheckTimeout,
{
}

/// The probe starts in one way only: a port that is not the sentinel is
/// delivered while the handshake is awaited. It is the delivered port that
/// is probed, and the child stays with the supervisor.
pub proof fn law_probe_needs_delivered_port<H>(view: SupervisorView<H>, event: SupervisorEvent<H>)
    requires
        view.wf(),
    ensures
        view.after(event).1 is Probe <==> view.state == SupervisorState::AwaitingHandshake
            && event is PortDelivered && event->PortDelivered_0.raw != ABSENT_PORT,
        view.after(event).1 is Probe ==> view.after(event).1->Probe_0
            == event->PortDelivered_0.raw && view.after(event).0.state == SupervisorState::Probing
            && view.after(event).0.handle == view.handle,
{
}

/// A delivered port starts the probe only while the handshake is awaited, so
/// a second delivery is never acted upon.
pub proof fn law_port_is_taken_once<H>(view: SupervisorView<H>, event: SupervisorEvent<H>)
    requires
        view.wf(),
        event is PortDelivered,
        view.state != SupervisorState::AwaitingHandshake,
    ensures
        view.after(event) == (view, SupervisorAction::<H>::Nothing),
{
}

/// Over any series of events a supervisor stays well formed and its state
/// never moves back.
pub proof fn law_run_advances<H>(view: SupervisorView<H>, events: Seq<SupervisorEvent<H>>)
    requires
        view.wf(),
    ensures
        run(view, events).0.wf(),
        run(view, events).1.len() == events.len(),
        rank(run(view, events).0.state) >= rank(view.state),
        run(view, events).0.state == view.state || rank(run(view, events).0.state) > rank(
            view.state,
        ),
    decreases events.len(),
{
    if events.len() > 0 {
        law_run_advances(view.after(events.first()).0, events.drop_first());
    }
}

/// Handles are neither lost nor doubled. Over any series of events a child
/// is accepted only while a launch is awaited, hence at most once, and every
/// accepted child is either still held or was handed out to be killed
/// exactly once.
pub proof fn law_handles_are_accounted_for<H>(
    view: SupervisorView<H>,
    events: Seq<SupervisorEvent<H>>,
)
    requires
        view.wf(),
    ensures
        accepted(run(view, events).1) <= (if view.state == SupervisorState::Launching {
            1nat
        } else {
            0nat
        }),
        kills(run(view, events).1) + held(run(view, events).0) == held(view) + accepted(
            run(view, events).1,
        ),
    decreases events.len(),
{
    if events.len() > 0 {
        let first = view.after(events.first());
        let rest = run(first.0, events.drop_first());
        let actions = seq![first.1] + rest.1;
        assert(actions.drop_first() =~= rest.1);
        law_handles_are_accounted_for(first.0, events.drop_first());
    }
}

/// In the whole life of a supervisor at most one child is accepted and at
/// most one kill is asked for.
pub proof fn law_one_child_one_kill<H>(events: Seq<SupervisorEvent<H>>)
    ensures
        accepted(run(SupervisorView::<H>::initial(), events).1) <= 1,
        kills(run(SupervisorView::<H>::initial(), events).1) <= 1,
{
    law_handles_are_accounted_for(SupervisorView::<H>::initial(), events);
}

} // verus!
