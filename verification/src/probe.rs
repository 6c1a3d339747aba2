//! The health probe: a bounded series of connection attempts against the
//! announced port, with a fixed pause after each failed attempt.
//!
//! The probe itself opens no socket and does not sleep. It says what to do
//! next, and is told how that went.

use vstd::prelude::*;

verus! {

/// How many connection attempts the probe makes before it gives up.
pub const MAX_ATTEMPTS: u32 = 60;

/// The pause after a failed attempt, in milliseconds.
pub const RETRY_DELAY_MS: u32 = 500;

/// Where the probe connects: the IPv4 loopback address 127.0.0.1, as one
/// number with the first octet in the highest byte.
pub const LOOPBACK_ADDRESS: u32 = 0x7F00_0001;

/// The budget of a probe: configuration that never changes while it runs.
#[derive(Clone, Copy, Debug, PartialEq, Eq, Structural)]
pub struct HealthCheckBudget {
    /// Number of attempts.
    pub attempts: u32,
    /// Pause after a failed attempt, in milliseconds.
    pub delay_ms: u32,
}

impl HealthCheckBudget {
    /// Sixty attempts, half a second after each failed one.
    pub fn standard() -> (budget: Self)
        ensures
            budget.attempts == MAX_ATTEMPTS,
            budget.delay_ms == RETRY_DELAY_MS,
    {
        HealthCheckBudget { attempts: MAX_ATTEMPTS, delay_ms: RETRY_DELAY_MS }
    }

    /// The longest time a probe spends pausing, in milliseconds: thirty
    /// seconds for the standard budget.
    pub fn ceiling_ms(&self) -> (ms: u64)
        ensures
            ms == self.attempts * self.delay_ms,
            self.attempts == MAX_ATTEMPTS && self.delay_ms == RETRY_DELAY_MS ==> ms == 30_000,
    {
        let attempts: u64 = self.attempts as u64;
        let delay: u64 = self.delay_ms as u64;
        assert(attempts * delay <= 0xFFFF_FFFF * 0xFFFF_FFFF) by (nonlinear_arith)
            requires
                attempts <= 0xFFFF_FFFF,
                delay <= 0xFFFF_FFFF,
        ;
        assert(attempts == 60 && delay == 500 ==> attempts * delay == 30_000) by (nonlinear_arith);
        attempts * delay
    }
}

/// Where a probe stands.
#[derive(Clone, Copy, Debug, PartialEq, Eq, Structural)]
pub enum ProbePhase {
    /// A connection attempt is due or under way.
    Connecting,
    /// The last attempt failed; the pause after it is due or under way.
    Pausing,
    /// An attempt connected: the backend is ready.
    Healthy,
    /// Every attempt of the budget failed.
    TimedOut,
}

/// What the caller does next for the probe.
#[derive(Clone, Copy, Debug, PartialEq, Eq, Structural)]
pub enum ProbeAction {
    /// Try to open a TCP connection to this IPv4 address and port, and
    /// report whether it connected. Nothing is to be sent or read.
    Connect { address: u32, port: u16 },
    /// Wait this many milliseconds, and report when they are over.
    Pause(u32),
    /// The probe is over, with this result.
    Finish(bool),
}

/// What the caller reports to the probe.
#[derive(Clone, Copy, Debug, PartialEq, Eq, Structural)]
pub enum ProbeEvent {
    /// The connection attempt ended; `true` if the socket connected.
    Attempted(bool),
    /// The pause is over.
    Paused,
}

/// The state of a probe as contracts see it.
pub struct ProbeView {
    /// The port that is probed.
    pub port: u16,
    /// The budget the probe was made with.
    pub budget: HealthCheckBudget,
    /// How many attempts have failed so far.
    pub failures: nat,
    /// Where the probe stands.
    pub phase: ProbePhase,
}

impl ProbeView {
    /// A probe that has made no attempt yet. With an empty budget there is
    /// nothing to try, and the probe has timed out from the start.
    pub open spec fn start(port: u16, budget: HealthCheckBudget) -> ProbeView {
        ProbeView {
            port,
            budget,
            failures: 0,
            phase: if budget.attempts == 0 {
                ProbePhase::TimedOut
            } else {
                ProbePhase::Connecting
            },
        }
    }

    /// The failures never exceed the budget; an attempt is due, or has
    /// connected, only while some of the budget was left, and the probe times
    /// out only when none is.
    pub open spec fn wf(self) -> bool {
        &&& self.failures <= self.budget.attempts
        &&& self.phase == ProbePhase::Connecting ==> self.failures < self.budget.attempts
        &&& self.phase == ProbePhase::Healthy ==> self.failures < self.budget.attempts
        &&& self.phase == ProbePhase::Pausing ==> self.failures > 0
        &&& self.phase == ProbePhase::TimedOut ==> self.failures == self.budget.attempts
    }

    /// What the caller is to do in this state.
    pub open spec fn action(self) -> ProbeAction {
        match self.phase {
            ProbePhase::Connecting => ProbeAction::Connect {
                address: LOOPBACK_ADDRESS,
                port: self.port,
            },
            ProbePhase::Pausing => ProbeAction::Pause(self.budget.delay_ms),
            ProbePhase::Healthy => ProbeAction::Finish(true),
            ProbePhase::TimedOut => ProbeAction::Finish(false),
        }
    }

    /// The state after an event. An event that the state did not ask for
    /// changes nothing.
    pub open spec fn after(self, event: ProbeEvent) -> ProbeView {
        match (self.phase, event) {
            (ProbePhase::Connecting, ProbeEvent::Attempted(true)) => ProbeView {
                phase: ProbePhase::Healthy,
                ..self
            },
            (ProbePhase::Connecting, ProbeEvent::Attempted(false)) => ProbeView {
                failures: self.failures + 1,
                phase: ProbePhase::Pausing,
                ..self
            },
            (ProbePhase::Pausing, ProbeEvent::Paused) => ProbeView {
                phase: if self.failures < self.budget.attempts {
                    ProbePhase::Connecting
                } else {
                    ProbePhase::TimedOut
                },
                ..self
            },
            _ => self,
        }
    }

    /// True once the probe is over.
    pub open spec fn finished(self) -> bool {
        self.phase == ProbePhase::Healthy || self.phase == ProbePhase::TimedOut
    }

    /// The state in which the probe ends when the caller does what it is
    /// told and the attempts go as `outcomes` says, one entry for each
    /// attempt in turn. Where `outcomes` runs out, the probe is left waiting
    /// for the next attempt.
    pub open spec fn drive(self, outcomes: Seq<bool>) -> ProbeView
        decreases outcomes.len(), (if self.phase == ProbePhase::Pausing {
            1nat
        } else {
            0nat
        }),
    {
        match self.phase {
            ProbePhase::Connecting => if outcomes.len() == 0 {
                self
            } else {
                self.after(ProbeEvent::Attempted(outcomes.first())).drive(outcomes.drop_first())
            },
            ProbePhase::Pausing => self.after(ProbeEvent::Paused).drive(outcomes),
            _ => self,
        }
    }
}

/// Whether one of the first `attempts` entries of `outcomes` is a success.
pub open spec fn connects_within(outcomes: Seq<bool>, attempts: nat) -> bool {
    exists|i: int| 0 <= i < attempts && i < outcomes.len() && #[trigger] outcomes[i]
}

/// The health probe for one port.
#[derive(Clone, Copy, Debug)]
pub struct HealthProbe {
    port: u16,
    budget: HealthCheckBudget,
    failures: u32,
    phase: ProbePhase,
}

impl View for HealthProbe {
    type V = ProbeView;

    closed spec fn view(&self) -> ProbeView {
        ProbeView {
            port: self.port,
            budget: self.budget,
            failures: self.failures as nat,
            phase: self.phase,
        }
    }
}

impl HealthProbe {
    #[verifier::type_invariant]
    spec fn well_formed(self) -> bool {
        self@.wf()
    }

    /// A probe of `port` with the standard budget.
    pub fn new(port: u16) -> (probe: Self)
        ensures
            probe@ == ProbeView::start(
                port,
                HealthCheckBudget { attempts: MAX_ATTEMPTS, delay_ms: RETRY_DELAY_MS },
            ),
            probe@.wf(),
    {
        HealthProbe::with_budget(port, HealthCheckBudget::standard())
    }

    /// A probe of `port` with a budget of the caller's.
    pub fn with_budget(port: u16, budget: HealthCheckBudget) -> (probe: Self)
        ensures
            probe@ == ProbeView::start(port, budget),
            probe@.wf(),
    {
        let phase = if budget.attempts == 0 {
            ProbePhase::TimedOut
        } else {
            ProbePhase::Connecting
        };
        HealthProbe { port, budget, failures: 0, phase }
    }

    /// The port that is probed.
    pub fn port(&self) -> (port: u16)
        ensures
            port == self@.port,
    {
        self.port
    }

    /// The budget the probe was made with.
    pub fn budget(&self) -> (budget: HealthCheckBudget)
        ensures
            budget == self@.budget,
    {
        self.budget
    }

    /// How many attempts have failed so far.
    pub fn failures(&self) -> (n: u32)
        ensures
            n == self@.failures,
    {
        self.failures
    }

    /// Where the probe stands.
    pub fn phase(&self) -> (phase: ProbePhase)
        ensures
            phase == self@.phase,
    {
        self.phase
    }

    /// What the caller is to do now.
    pub fn next_action(&self) -> (action: ProbeAction)
        ensures
            action == self@.action(),
    {
        match self.phase {
            ProbePhase::Connecting => ProbeAction::Connect {
                address: LOOPBACK_ADDRESS,
                port: self.port,
            },
            ProbePhase::Pausing => ProbeAction::Pause(self.budget.delay_ms),
            ProbePhase::Healthy => ProbeAction::Finish(true),
            ProbePhase::TimedOut => ProbeAction::Finish(false),
        }
    }

    /// Takes the caller's report and says what to do next.
    pub fn step(&mut self, event: ProbeEvent) -> (action: ProbeAction)
        ensures
            old(self)@.wf(),
            final(self)@ == old(self)@.after(event),
            final(self)@.wf(),
            action == final(self)@.action(),
    {
        proof {
            use_type_invariant(&*self);
        }
        let port = self.port;
        let budget = self.budget;
        let failures = self.failures;
        match (self.phase, event) {
            (ProbePhase::Connecting, ProbeEvent::Attempted(true)) => {
                *self = HealthProbe { port, budget, failures, phase: ProbePhase::Healthy };
            },
            (ProbePhase::Connecting, ProbeEvent::Attempted(false)) => {
                *self = HealthProbe {
                    port,
                    budget,
                    failures: failures + 1,
                    phase: ProbePhase::Pausing,
                };
            },
            (ProbePhase::Pausing, ProbeEvent::Paused) => {
                let phase = if failures < budget.attempts {
                    ProbePhase::Connecting
                } else {
                    ProbePhase::TimedOut
                };
                *self = HealthProbe { port, budget, failures, phase };
            },
            _ => {},
        }
        self.next_action()
    }
}

/// The result of a probe whose attempts go as `outcomes` says: `Some(true)`
/// as soon as an attempt connects, `Some(false)` once the whole budget has
/// failed, and `None` where `outcomes` ends before either.
pub fn probe_result(port: u16, budget: HealthCheckBudget, outcomes: &Vec<bool>) -> (r: Option<bool>)
    ensures
        r == (match ProbeView::start(port, budget).drive(outcomes@).phase {
            ProbePhase::Healthy => Some(true),
            ProbePhase::TimedOut => Some(false),
            _ => None,
        }),
{
    let mut probe = HealthProbe::with_budget(port, budget);
    let mut used: usize = 0;
    assert(outcomes@.skip(0) =~= outcomes@);
    loop
        invariant
            used <= outcomes.len(),
            probe@.wf(),
            ProbeView::start(port, budget).drive(outcomes@) == probe@.drive(
                outcomes@.skip(used as int),
            ),
        ensures
            probe@.phase != ProbePhase::Pausing,
            ProbeView::start(port, budget).drive(outcomes@) == probe@,
        decreases outcomes.len() - used, (if probe@.phase == ProbePhase::Pausing {
            1nat
        } else {
            0nat
        }),
    {
        let ghost rest = outcomes@.skip(used as int);
        match probe.next_action() {
            ProbeAction::Connect { .. } => {
                if used == outcomes.len() {
                    break ;
                }
                assert(rest.drop_first() =~= outcomes@.skip(used + 1));
                probe.step(ProbeEvent::Attempted(outcomes[used]));
                used += 1;
            },
            ProbeAction::Pause(_) => {
                probe.step(ProbeEvent::Paused);
            },
            ProbeAction::Finish(_) => {
                break ;
            },
        }
    }
    match probe.phase() {
        ProbePhase::Healthy => Some(true),
        ProbePhase::TimedOut => Some(false),
        _ => None,
    }
}

/// Every step keeps a probe well formed.
pub proof fn law_probe_stays_well_formed(probe: ProbeView, event: ProbeEvent)
    requires
        probe.wf(),
    ensures
        probe.after(event).wf(),
        probe.after(event).port == probe.port,
        probe.after(event).budget == probe.budget,
        probe.after(event).failures >= probe.failures,
{
}

/// A probe that is over stays as it is, whatever it is told.
pub proof fn law_finished_probe_is_final(probe: ProbeView, event: ProbeEvent)
    requires
        probe.finished(),
    ensures
        probe.after(event) == probe,
{
}

/// What decides a probe whose attempts go as `outcomes` says, however many
/// outcomes are at hand.
/// It ends healthy exactly if one of the attempts within its budget
/// connects; it then stopped at the first attempt that connects, and the
/// failures it has counted are the attempts before that one.
/// It ends timed out exactly if there is an outcome for every attempt of the
/// budget and all of them fail.
/// Otherwise the outcomes ran out first: every one of them failed, and the
/// probe is left asking for its next attempt.
pub proof fn law_probe_verdict(port: u16, budget: HealthCheckBudget, outcomes: Seq<bool>)
    ensures
        ({
            let end = ProbeView::start(port, budget).drive(outcomes);
            &&& end.wf()
            &&& end.port == port
            &&& end.budget == budget
            &&& end.phase != ProbePhase::Pausing
            &&& end.phase == ProbePhase::Healthy <==> connects_within(
                outcomes,
                budget.attempts as nat,
            )
            &&& end.phase == ProbePhase::TimedOut <==> outcomes.len() >= budget.attempts
                && forall|i: int| 0 <= i < budget.attempts ==> !#[trigger] outcomes[i]
            &&& end.phase == ProbePhase::TimedOut ==> end.failures == budget.attempts
            &&& end.phase == ProbePhase::Healthy ==> {
                &&& end.failures < budget.attempts
                &&& end.failures < outcomes.len()
                &&& outcomes[end.failures as int]
                &&& forall|i: int| 0 <= i < end.failures ==> !#[trigger] outcomes[i]
            }
            &&& end.phase == ProbePhase::Connecting ==> {
                &&& end.failures == outcomes.len()
                &&& outcomes.len() < budget.attempts
                &&& forall|i: int| 0 <= i < outcomes.len() ==> !#[trigger] outcomes[i]
            }
        }),
{
    if budget.attempts > 0 {
        lemma_drive_from(ProbeView::start(port, budget), outcomes);
    }
}

/// From a state in which an attempt is due: where the probe ends, and how
/// many of the outcomes it has used by then.
proof fn lemma_drive_from(probe: ProbeView, outcomes: Seq<bool>)
    requires
        probe.wf(),
        probe.phase == ProbePhase::Connecting,
    ensures
        ({
            let end = probe.drive(outcomes);
            let used = end.failures - probe.failures;
            &&& end.wf()
            &&& end.port == probe.port
            &&& end.budget == probe.budget
            &&& end.phase != ProbePhase::Pausing
            &&& 0 <= used <= outcomes.len()
            &&& forall|i: int| 0 <= i < used ==> !#[trigger] outcomes[i]
            &&& end.phase == ProbePhase::Healthy ==> used < outcomes.len() && outcomes[used]
            &&& end.phase == ProbePhase::Connecting ==> used == outcomes.len()
        }),
    decreases outcomes.len(),
{
    if outcomes.len() > 0 {
        let rest = outcomes.drop_first();
        let next = probe.after(ProbeEvent::Attempted(outcomes.first()));
        if outcomes.first() {
            assert(next.drive(rest) == next);
        } else {
            let resumed = next.after(ProbeEvent::Paused);
            assert(next.drive(rest) == resumed.drive(rest));
            if resumed.phase == ProbePhase::Connecting {
                lemma_drive_from(resumed, rest);
                let end = resumed.drive(rest);
                let used = end.failures - probe.failures;
                assert forall|i: int| 0 < i < used implies !#[trigger] outcomes[i] by {
                    assert(outcomes[i] == rest[i - 1]);
                }
                if end.phase == ProbePhase::Healthy {
                    assert(outcomes[used] == rest[used - 1]);
                }
            } else {
                assert(resumed.drive(rest) == resumed);
            }
        }
    }
}

} // verus!
