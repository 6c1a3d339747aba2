//! The value a sidecar announces on its standard output.

use vstd::prelude::*;

verus! {

/// Raw value that stands for "no port was announced".
pub const ABSENT_PORT: u16 = 0;

/// The single value handed from the handshake reader to the supervisor: the
/// port the child chose, or the sentinel saying that it never announced one.
#[derive(Clone, Copy, Debug, PartialEq, Eq, Structural)]
pub struct PortAnnouncement {
    /// The announced port, or `ABSENT_PORT`.
    pub raw: u16,
}

impl PortAnnouncement {
    /// True exactly for the sentinel.
    pub open spec fn absent_spec(self) -> bool {
        self.raw == ABSENT_PORT
    }

    /// The sentinel: the child's output ended without a usable announcement.
    pub fn absent() -> (a: Self)
        ensures
            a.raw == ABSENT_PORT,
    {
        PortAnnouncement { raw: ABSENT_PORT }
    }

    /// Wraps a raw value as it travels over the one-shot channel; zero is the
    /// sentinel.
    pub fn from_raw(raw: u16) -> (a: Self)
        ensures
            a.raw == raw,
    {
        PortAnnouncement { raw }
    }

    /// True exactly for the sentinel.
    #[verifier::when_used_as_spec(absent_spec)]
    pub fn is_absent(self) -> (b: bool)
        ensures
            b == self.absent_spec(),
    {
        self.raw == ABSENT_PORT
    }

    /// The announced port, if there is one.
    pub fn port(self) -> (p: Option<u16>)
        ensures
            p == (if self.is_absent() {
                None
            } else {
                Some(self.raw)
            }),
    {
        if self.raw == ABSENT_PORT {
            None
        } else {
            Some(self.raw)
        }
    }
}

} // verus!
