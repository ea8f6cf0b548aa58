//! The health monitor: per-cycle triage and repair of individual slave
//! faults while the rest of the network keeps cycling.
//!
//! Each pass refreshes every slave's state from the network in one batched
//! read, then walks the group and classifies every member into exactly one
//! repair action.  The triage is priority-ordered, not a single-state
//! machine: an error acknowledgement is cheaper than a promotion, a
//! promotion cheaper than a reconfiguration, and full recovery of a lost
//! slave comes last.  Every repair operation the network performs is
//! bounded by a short timeout, so one unresponsive slave cannot stall the
//! pass for the others.

use vstd::prelude::*;
use crate::group::Group;
use crate::registry::{SlaveDescriptor, SlaveRegistry};
use crate::state::{SlaveState, StateRequest};

verus! {

/// The one repair action a pass takes for one slave.
#[derive(Clone, Copy, PartialEq, Eq, Structural, Debug)]
pub enum RepairAction {
    /// The slave belongs to another group: this pass does not touch it.
    Skip,
    /// OPERATIONAL and not lost: nothing to do.
    Healthy,
    /// OPERATIONAL but still marked lost: it recovered on its own; clear
    /// the flag without any network operation.
    MarkFound,
    /// SAFE_OP with the error indicator: request SAFE_OP with the
    /// acknowledge bit to clear the error while staying below
    /// OPERATIONAL.
    AckError,
    /// Plain SAFE_OP: the slave is healthy below OPERATIONAL; promote it.
    Promote,
    /// A valid state below SAFE_OP: run a bounded reconfiguration.
    Reconfigure,
    /// Absent and not yet marked lost: run one bounded state re-check
    /// before declaring it lost.
    Probe,
    /// Absent and already lost: attempt a bounded recovery.
    Recover,
}

/// What the bounded network operations of one slave's repair reported.
/// Only the field matching the chosen action is ever consulted.
#[derive(Clone, Copy, PartialEq, Eq, Structural, Debug)]
pub struct RepairOutcome {
    /// Result of a bounded reconfiguration, when one was requested.
    pub reconfig_ok: bool,
    /// State read back by a bounded re-check, when one was requested.
    pub probed_state: SlaveState,
    /// Result of a bounded recovery, when one was requested.
    pub recover_ok: bool,
}

/// Classify one slave.  A slave already OPERATIONAL is judged on its lost
/// flag alone, independent of the repair branches below OPERATIONAL.
pub open spec fn spec_triage(d: SlaveDescriptor, group: u8) -> RepairAction {
    if d.group != group {
        RepairAction::Skip
    } else if d.state == SlaveState::Operational {
        if d.lost {
            RepairAction::MarkFound
        } else {
            RepairAction::Healthy
        }
    } else if d.state == SlaveState::SafeOpError {
        RepairAction::AckError
    } else if d.state == SlaveState::SafeOp {
        RepairAction::Promote
    } else if d.state != SlaveState::Absent {
        RepairAction::Reconfigure
    } else if !d.lost {
        RepairAction::Probe
    } else {
        RepairAction::Recover
    }
}

pub fn triage(d: &SlaveDescriptor, group: u8) -> (a: RepairAction)
    ensures
        a == spec_triage(*d, group),
{
    if d.group != group {
        RepairAction::Skip
    } else if matches!(d.state, SlaveState::Operational) {
        if d.lost {
            RepairAction::MarkFound
        } else {
            RepairAction::Healthy
        }
    } else if matches!(d.state, SlaveState::SafeOpError) {
        RepairAction::AckError
    } else if matches!(d.state, SlaveState::SafeOp) {
        RepairAction::Promote
    } else if !matches!(d.state, SlaveState::Absent) {
        RepairAction::Reconfigure
    } else if !d.lost {
        RepairAction::Probe
    } else {
        RepairAction::Recover
    }
}

/// The state write an action asks the network to issue, if any.
pub fn repair_request(a: RepairAction) -> (r: Option<StateRequest>)
    ensures
        a == RepairAction::AckError ==> r == Some(StateRequest::SafeOpAck),
        a == RepairAction::Promote ==> r == Some(StateRequest::Operational),
        a != RepairAction::AckError && a != RepairAction::Promote ==> r is None,
{
    match a {
        RepairAction::AckError => Some(StateRequest::SafeOpAck),
        RepairAction::Promote => Some(StateRequest::Operational),
        _ => None,
    }
}

/// The slave after its repair action settles, given what the bounded
/// operations reported.
///
/// A probe replaces the slave's state with what it read back and marks
/// the slave lost exactly when that is still absent; a successful
/// reconfiguration or recovery clears the lost flag; finding an
/// OPERATIONAL slave clears the flag with no operation at all.  No branch
/// ever touches identity, group membership or the I/O footprint.
pub open spec fn spec_settle(d: SlaveDescriptor, group: u8, o: RepairOutcome) -> SlaveDescriptor {
    match spec_triage(d, group) {
        RepairAction::Skip => d,
        RepairAction::Healthy => d,
        RepairAction::MarkFound => SlaveDescriptor { lost: false, ..d },
        RepairAction::AckError => d,
        RepairAction::Promote => d,
        RepairAction::Reconfigure => if o.reconfig_ok {
            SlaveDescriptor { lost: false, ..d }
        } else {
            d
        },
        RepairAction::Probe => SlaveDescriptor {
            state: o.probed_state,
            lost: o.probed_state == SlaveState::Absent,
            ..d
        },
        RepairAction::Recover => if o.recover_ok {
            SlaveDescriptor { lost: false, ..d }
        } else {
            d
        },
    }
}

pub fn settle(d: &mut SlaveDescriptor, group: u8, o: &RepairOutcome)
    ensures
        *final(d) == spec_settle(*old(d), group, *o),
{
    let a = triage(d, group);
    match a {
        RepairAction::MarkFound => {
            d.lost = false;
        },
        RepairAction::Reconfigure => {
            if o.reconfig_ok {
                d.lost = false;
            }
        },
        RepairAction::Probe => {
            d.state = o.probed_state;
            d.lost = matches!(o.probed_state, SlaveState::Absent);
        },
        RepairAction::Recover => {
            if o.recover_ok {
                d.lost = false;
            }
        },
        _ => {},
    }
}

/// Whether this slave keeps its group's `docheckstate` armed this pass,
/// judged on the state the batched read returned.
pub open spec fn spec_rearms(d: SlaveDescriptor, group: u8) -> bool {
    d.group == group && d.state != SlaveState::Operational
}

/// A slave as the batched read leaves it: its state replaced, everything
/// else untouched.
pub open spec fn spec_refresh(d: SlaveDescriptor, st: SlaveState) -> SlaveDescriptor {
    SlaveDescriptor { state: st, ..d }
}

/// One full health pass over a group.
///
/// `refreshed` is what the batched state read returned for each slave, in
/// registry order; `outcomes` is what the bounded repair operations
/// reported for each slave (consulted only where the triage asks for
/// one).  After the pass, the group's `docheckstate` is armed if and only
/// if some member slave read back short of OPERATIONAL — it clears
/// exactly when the last member reaches OPERATIONAL, never earlier.  The
/// mapping and its expected working counter are untouched.
pub fn health_pass(
    registry: &mut SlaveRegistry,
    group: &mut Group,
    refreshed: &Vec<SlaveState>,
    outcomes: &Vec<RepairOutcome>,
)
    requires
        old(registry).wf(),
        refreshed@.len() == old(registry).slaves@.len(),
        outcomes@.len() == old(registry).slaves@.len(),
    ensures
        final(registry).wf(),
        final(registry).slaves@.len() == old(registry).slaves@.len(),
        forall|i: int|
            0 <= i < old(registry).slaves@.len() ==> #[trigger] final(registry).slaves@[i]
                == spec_settle(
                spec_refresh(old(registry).slaves@[i], refreshed@[i]),
                old(group).id,
                outcomes@[i],
            ),
        final(group).same_mapping(*old(group)),
        final(group).docheckstate == exists|i: int|
            0 <= i < old(registry).slaves@.len() && spec_rearms(
                spec_refresh(#[trigger] old(registry).slaves@[i], refreshed@[i]),
                old(group).id,
            ),
{
    group.docheckstate = false;
    registry.refresh_states(refreshed);
    let gid = group.id;
    let n = registry.len();
    let mut i: usize = 0;
    let mut armed = false;
    while i < n
        invariant
            n == old(registry).slaves@.len(),
            refreshed@.len() == n,
            outcomes@.len() == n,
            registry.slaves@.len() == n,
            i <= n,
            gid == old(group).id,
            forall|j: int|
                0 <= j < i ==> #[trigger] registry.slaves@[j] == spec_settle(
                    spec_refresh(old(registry).slaves@[j], refreshed@[j]),
                    gid,
                    outcomes@[j],
                ),
            forall|j: int|
                i <= j < n ==> #[trigger] registry.slaves@[j] == spec_refresh(
                    old(registry).slaves@[j],
                    refreshed@[j],
                ),
            armed == exists|j: int|
                0 <= j < i && spec_rearms(
                    spec_refresh(#[trigger] old(registry).slaves@[j], refreshed@[j]),
                    gid,
                ),
        decreases n - i,
    {
        let mut d = registry.slaves[i];
        if d.group == gid && !d.state.is_operational() {
            armed = true;
        }
        settle(&mut d, gid, &outcomes[i]);
        registry.slaves.set(i, d);
        i += 1;
    }
    group.docheckstate = armed;
    proof {
        assert forall|j: int|
            0 <= j < registry.slaves@.len() implies #[trigger] registry.slaves@[j].index == j
            + 1 by {
            assert(registry.slaves@[j] == spec_settle(
                spec_refresh(old(registry).slaves@[j], refreshed@[j]),
                gid,
                outcomes@[j],
            ));
        }
    }
}

/// Law: the lost flag's discipline.  A pass raises the flag only through a
/// probe whose bounded re-check still read the slave as absent, and lowers
/// it only when the slave read back OPERATIONAL on its own or a bounded
/// reconfiguration or recovery succeeded — never for any other reason.
pub proof fn lemma_lost_flag_discipline(d: SlaveDescriptor, group: u8, o: RepairOutcome)
    ensures
        spec_settle(d, group, o).lost && !d.lost ==> spec_triage(d, group)
            == RepairAction::Probe && o.probed_state == SlaveState::Absent,
        !spec_settle(d, group, o).lost && d.lost ==> {
            ||| spec_triage(d, group) == RepairAction::MarkFound
            ||| spec_triage(d, group) == RepairAction::Reconfigure && o.reconfig_ok
            ||| spec_triage(d, group) == RepairAction::Recover && o.recover_ok
        },
{
}

/// Law: a member slave that reads back absent while not yet marked lost is
/// probed, and when the probe still finds it absent, the pass marks it
/// lost.
pub proof fn lemma_absent_slave_marked_lost(d: SlaveDescriptor, group: u8, o: RepairOutcome)
    requires
        d.group == group,
        d.state == SlaveState::Absent,
        !d.lost,
        o.probed_state == SlaveState::Absent,
    ensures
        spec_triage(d, group) == RepairAction::Probe,
        spec_settle(d, group, o).lost,
{
}

/// Law: a lost member slave that reads back OPERATIONAL again is cleared
/// within that same pass, with no recovery operation consulted — the
/// outcome is irrelevant to the result.
pub proof fn lemma_returned_slave_found(d: SlaveDescriptor, group: u8, o: RepairOutcome)
    requires
        d.group == group,
        d.state == SlaveState::Operational,
        d.lost,
    ensures
        spec_triage(d, group) == RepairAction::MarkFound,
        !spec_settle(d, group, o).lost,
        spec_settle(d, group, o).state == SlaveState::Operational,
{
}

} // verus!
