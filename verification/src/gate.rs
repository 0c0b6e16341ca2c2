//! The init gate that delays the bootstrap scan.
//!
//! The worker thread may not scan before the host signals that its own
//! subsystems are ready.  The init gate is polled: each poll sees the
//! readiness flag and the time elapsed so far, and decides whether to
//! proceed, keep waiting, or give up.  An unbounded deadline is a legitimate
//! configuration (wait forever); an elapsed finite deadline is surfaced to
//! the caller, who escalates it to a fatal startup abort.

use vstd::prelude::*;

verus! {

/// Outcome of one poll of the init gate.
#[derive(Clone, Copy, PartialEq, Eq, Structural, Debug)]
pub enum GateStatus {
    /// The host signalled readiness: the bootstrap may proceed.
    Ready,
    /// The finite deadline elapsed before readiness was signalled.
    TimedOut,
    /// Neither: keep waiting and poll again.
    StillWaiting,
}

/// How long the init gate waits for readiness.  `None` waits forever.
pub struct InitGate {
    pub deadline: Option<u64>,
}

impl InitGate {
    /// A gate that waits for `deadline` time units, or forever on `None`.
    pub fn new(deadline: Option<u64>) -> (g: InitGate)
        ensures
            g.deadline == deadline,
    {
        InitGate { deadline }
    }

    /// Decides one poll: readiness always wins; otherwise an elapsed
    /// finite deadline times out, never blocking past it, and an
    /// unbounded gate keeps waiting.  A zero deadline with an unsignalled
    /// flag times out on the very first poll.
    pub fn poll(&self, elapsed: u64, ready: bool) -> (r: GateStatus)
        ensures
            r == GateStatus::Ready <==> ready,
            r == GateStatus::TimedOut <==> (!ready && match self.deadline {
                Some(d) => elapsed >= d,
                None => false,
            }),
            r == GateStatus::StillWaiting <==> (!ready && match self.deadline {
                Some(d) => elapsed < d,
                None => true,
            }),
    {
        if ready {
            GateStatus::Ready
        } else {
            match self.deadline {
                Some(d) => if elapsed >= d {
                    GateStatus::TimedOut
                } else {
                    GateStatus::StillWaiting
                },
                None => GateStatus::StillWaiting,
            }
        }
    }
}

} // verus!
