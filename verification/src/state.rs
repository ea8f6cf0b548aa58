//! Protocol states of a slave, the state requests a master can issue, and
//! the addressing targets for state operations.

use vstd::prelude::*;

verus! {

/// Protocol state a slave reports.  `Absent` is the wire's NONE state: the
/// slave did not answer the state read at all, which is how a lost slave
/// shows up.
#[derive(Clone, Copy, PartialEq, Eq, Structural, Debug)]
pub enum SlaveState {
    Absent,
    Init,
    PreOp,
    SafeOp,
    /// SAFE_OP with the error indicator set: the slave refused a transition
    /// or detected a fault and is waiting for an acknowledgement.
    SafeOpError,
    Operational,
}

/// A state transition the master may request of a slave.  `SafeOpAck`
/// requests SAFE_OP with the acknowledge bit set, which clears a pending
/// error indicator without promoting the slave.
#[derive(Clone, Copy, PartialEq, Eq, Structural, Debug)]
pub enum StateRequest {
    Init,
    SafeOp,
    SafeOpAck,
    Operational,
}

/// Target of a state read or write.  The wire reserves slave position 0 as
/// a virtual slave addressing every device at once; that special position
/// is kept out of the registry and appears only as this explicit variant.
#[derive(Clone, Copy, PartialEq, Eq, Structural, Debug)]
pub enum Target {
    Broadcast,
    Slave(u16),
}

impl SlaveState {
    /// A slave in any state other than `Operational` keeps its group under
    /// supervision of the health monitor.
    pub open spec fn spec_is_operational(self) -> bool {
        self is Operational
    }

    pub fn is_operational(&self) -> (r: bool)
        ensures
            r == self.spec_is_operational(),
    {
        matches!(*self, SlaveState::Operational)
    }
}

} // verus!
