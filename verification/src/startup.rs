//! A whole startup on recorded inputs: the supervisor, the handshake reader
//! and the health probe put together as the caller puts them together,
//! without a process or a socket.

use crate::announcement::{PortAnnouncement, ABSENT_PORT};
use crate::handshake::{read_announcement, stream_announcement};
use crate::probe::{
    connects_within, law_probe_verdict, probe_result, HealthCheckBudget, ProbePhase, ProbeView,
    MAX_ATTEMPTS, RETRY_DELAY_MS,
};
use crate::supervisor::{
    FatalReason, Supervisor, SupervisorAction, SupervisorEvent, SupervisorState, SupervisorView,
};
use vstd::prelude::*;

verus! {

/// The budget every startup probes with.
pub open spec fn standard_budget() -> HealthCheckBudget {
    HealthCheckBudget { attempts: MAX_ATTEMPTS, delay_ms: RETRY_DELAY_MS }
}

/// Where a startup ends, and the last action it asks for.
///
/// `launched` is the child's handle, or `None` where the launch failed;
/// `output` is what the child prints, line by line, until it closes its
/// output; `connects` says for each connection attempt in turn whether it
/// connects. Where `connects` runs out before the probe has ended, the
/// startup is left probing.
pub open spec fn startup<H>(launched: Option<H>, output: Seq<Seq<char>>, connects: Seq<bool>) -> (
    SupervisorView<H>,
    SupervisorAction<H>,
) {
    match launched {
        None => SupervisorView::<H>::initial().after(SupervisorEvent::LaunchFailed),
        Some(child) => {
            let awaiting = SupervisorView::<H>::initial().after(SupervisorEvent::Launched(child)).0;
            let port = stream_announcement(output);
            let delivered = awaiting.after(
                SupervisorEvent::PortDelivered(PortAnnouncement { raw: port }),
            );
            if port == ABSENT_PORT {
                delivered
            } else {
                match ProbeView::start(port, standard_budget()).drive(connects).phase {
                    ProbePhase::Healthy => delivered.0.after(SupervisorEvent::ProbeFinished(true)),
                    ProbePhase::TimedOut => delivered.0.after(
                        SupervisorEvent::ProbeFinished(false),
                    ),
                    _ => delivered,
                }
            }
        },
    }
}

/// Runs a whole startup on recorded inputs and returns the supervisor as it
/// is left, with the last action it asked for.
pub fn rehearse<H>(launched: Option<H>, output: &Vec<String>, connects: &Vec<bool>) -> (r: (
    Supervisor<H>,
    SupervisorAction<H>,
))
    ensures
        (r.0@, r.1) == startup(launched, output.deep_view(), connects@),
        r.0@.wf(),
{
    let mut supervisor = Supervisor::new();
    match launched {
        None => {
            let action = supervisor.step(SupervisorEvent::LaunchFailed);
            (supervisor, action)
        },
        Some(child) => {
            let _ = supervisor.step(SupervisorEvent::Launched(child));
            let announcement = read_announcement(output);
            let delivered = supervisor.step(SupervisorEvent::PortDelivered(announcement));
            match delivered {
                SupervisorAction::Probe(port) => {
                    match probe_result(port, HealthCheckBudget::standard(), connects) {
                        Some(healthy) => {
                            let action = supervisor.step(SupervisorEvent::ProbeFinished(healthy));
                            (supervisor, action)
                        },
                        None => (supervisor, SupervisorAction::Probe(port)),
                    }
                },
                other => (supervisor, other),
            }
        },
    }
}

/// What decides a startup, however many connection outcomes are at hand.
/// A startup ends in exactly one of five states:
/// in fallback, if and only if the launch failed;
/// failed on the handshake, if and only if a child was launched and its
/// output announces no port;
/// ready, if and only if the child announced a port and an attempt within
/// the budget connects, and then it is ready on the announced port;
/// failed on the health check, if and only if the child announced a port,
/// there is an outcome for every attempt of the budget, and all of them
/// fail;
/// still probing, if and only if the child announced a port and the
/// outcomes ran out before an attempt connected or the budget was spent.
/// Both failures hand the child out to be killed; readiness and probing
/// keep it.
pub proof fn law_startup_outcome<H>(launched: Option<H>, output: Seq<Seq<char>>, connects: Seq<bool>)
    ensures
        ({
            let end = startup(launched, output, connects);
            let port = stream_announcement(output);
            let reachable = connects_within(connects, MAX_ATTEMPTS as nat);
            let spent = connects.len() >= MAX_ATTEMPTS && forall|i: int|
                0 <= i < MAX_ATTEMPTS ==> !#[trigger] connects[i];
            &&& end.0.wf()
            &&& end.0.state == SupervisorState::FallbackNoSidecar <==> launched is None
            &&& end.0.state == SupervisorState::FatalFailed(FatalReason::HandshakeFailed)
                <==> launched is Some && port == ABSENT_PORT
            &&& end.0.state is Ready <==> launched is Some && port != ABSENT_PORT && reachable
            &&& end.0.state == SupervisorState::FatalFailed(FatalReason::HealthCheckTimeout)
                <==> launched is Some && port != ABSENT_PORT && spent
            &&& end.0.state == SupervisorState::Probing <==> launched is Some && port
                != ABSENT_PORT && !reachable && !spent
            &&& end.0.state is Ready ==> end.0.state == SupervisorState::Ready(port) && end.1
                == SupervisorAction::<H>::AnnounceReady(port) && end.0.handle == launched
            &&& end.0.state is FatalFailed ==> end.1 == SupervisorAction::Abort(
                launched->0,
                end.0.state->FatalFailed_0,
            ) && end.0.handle is None
            &&& end.0.state == SupervisorState::Probing ==> end.1 == SupervisorAction::<
                H,
            >::Probe(port) && end.0.handle == launched
            &&& launched is None ==> end.1 is FallBack && end.0.handle is None
        }),
{
    let port = stream_announcement(output);
    law_probe_verdict(port, standard_budget(), connects);
}

} // verus!
