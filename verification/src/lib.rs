//! Supervision of a sidecar backend process: the port handshake read from the
//! child's output, the bounded health probe, and the lifecycle state machine
//! that ties launch, readiness, failure and teardown together.
//!
//! Nothing here starts a process, reads a pipe, opens a socket or sleeps.
//! Each part is a state machine that is told what happened and answers with
//! what to do next, so that the rules can be stated and proved apart from
//! the operating system.

pub mod announcement;
pub mod handshake;
pub mod probe;
pub mod startup;
pub mod supervisor;
pub mod text;

pub use announcement::{PortAnnouncement, ABSENT_PORT};
pub use handshake::{
    parse_port_line, read_announcement, read_port_line, HandshakeReader, ReaderAction,
};
pub use probe::{
    probe_result, HealthCheckBudget, HealthProbe, ProbeAction, ProbeEvent, ProbePhase,
    LOOPBACK_ADDRESS, MAX_ATTEMPTS, RETRY_DELAY_MS,
};
pub use startup::rehearse;
pub use supervisor::{
    FatalReason, Supervisor, SupervisorAction, SupervisorEvent, SupervisorState,
    FATAL_EXIT_STATUS,
};
pub use text::Numeral;
