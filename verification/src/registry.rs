//! The slave registry: the master's per-slave snapshot of identity,
//! protocol state and fault flags.
//!
//! Positions are 1-based on the wire; position 0 is the virtual broadcast
//! slave and is never stored here.  The descriptor at vector slot `i`
//! therefore carries wire index `i + 1`.

use vstd::prelude::*;
use crate::state::SlaveState;

verus! {

/// Upper bound on the number of slaves one session manages; a scan that
/// reports more cannot be mapped.
pub const MAX_SLAVES: usize = 512;

/// What a bus scan reports about one discovered device.
#[derive(Clone, Copy, PartialEq, Eq, Structural, Debug)]
pub struct SlaveInfo {
    pub vendor_id: u32,
    pub product_id: u32,
    pub revision_id: u32,
    /// Bytes this device consumes from the output region each cycle.
    pub output_bytes: usize,
    /// Bytes this device contributes to the input region each cycle.
    pub input_bytes: usize,
}

/// The master's snapshot of one slave.
#[derive(Clone, Copy, PartialEq, Eq, Structural, Debug)]
pub struct SlaveDescriptor {
    /// Wire index, 1-based; 0 is reserved for broadcast.
    pub index: u16,
    pub vendor_id: u32,
    pub product_id: u32,
    pub revision_id: u32,
    /// The group whose mapping this slave belongs to.
    pub group: u8,
    /// Protocol state from the most recent refresh.
    pub state: SlaveState,
    /// Set when the slave stopped answering (state read back absent);
    /// cleared when it answers again or a recovery succeeds.
    pub lost: bool,
    /// Last AL-status error code the slave reported.
    pub al_status: u16,
    pub output_bytes: usize,
    pub input_bytes: usize,
}

pub struct SlaveRegistry {
    pub slaves: Vec<SlaveDescriptor>,
}

/// The descriptor fields that come straight from a scan record.
pub open spec fn descriptor_from_scan(
    d: SlaveDescriptor,
    index: int,
    group: u8,
    state: SlaveState,
    info: SlaveInfo,
) -> bool {
    &&& d.index == index
    &&& d.vendor_id == info.vendor_id
    &&& d.product_id == info.product_id
    &&& d.revision_id == info.revision_id
    &&& d.group == group
    &&& d.state == state
    &&& !d.lost
    &&& d.al_status == 0
    &&& d.output_bytes == info.output_bytes
    &&& d.input_bytes == info.input_bytes
}

impl SlaveRegistry {
    /// Slots and wire indices agree, and the registry is small enough for
    /// one session.
    pub open spec fn wf(self) -> bool {
        &&& self.slaves@.len() <= MAX_SLAVES
        &&& forall|i: int|
            0 <= i < self.slaves@.len() ==> #[trigger] self.slaves@[i].index == i + 1
    }

    /// Build the registry from a scan: one descriptor per discovered
    /// device, all in the given group, all starting in the given state,
    /// none lost.
    pub fn from_scan(infos: &Vec<SlaveInfo>, group: u8, state: SlaveState) -> (r: SlaveRegistry)
        requires
            infos@.len() <= MAX_SLAVES,
        ensures
            r.wf(),
            r.slaves@.len() == infos@.len(),
            forall|i: int|
                0 <= i < infos@.len() ==> descriptor_from_scan(
                    #[trigger] r.slaves@[i],
                    i + 1,
                    group,
                    state,
                    infos@[i],
                ),
    {
        let mut slaves: Vec<SlaveDescriptor> = Vec::new();
        let mut i: usize = 0;
        while i < infos.len()
            invariant
                i <= infos@.len(),
                infos@.len() <= MAX_SLAVES,
                slaves@.len() == i,
                forall|j: int|
                    0 <= j < i ==> descriptor_from_scan(
                        #[trigger] slaves@[j],
                        j + 1,
                        group,
                        state,
                        infos@[j],
                    ),
            decreases infos@.len() - i,
        {
            let info = infos[i];
            slaves.push(SlaveDescriptor {
                index: (i + 1) as u16,
                vendor_id: info.vendor_id,
                product_id: info.product_id,
                revision_id: info.revision_id,
                group,
                state,
                lost: false,
                al_status: 0,
                output_bytes: info.output_bytes,
                input_bytes: info.input_bytes,
            });
            i += 1;
        }
        SlaveRegistry { slaves }
    }

    pub fn len(&self) -> (r: usize)
        ensures
            r == self.slaves@.len(),
    {
        self.slaves.len()
    }

    /// Replace every slave's protocol state with the value a batched
    /// network read just returned; everything else is untouched.
    pub fn refresh_states(&mut self, states: &Vec<SlaveState>)
        requires
            states@.len() == old(self).slaves@.len(),
        ensures
            final(self).slaves@.len() == old(self).slaves@.len(),
            forall|i: int|
                0 <= i < old(self).slaves@.len() ==> #[trigger] final(self).slaves@[i]
                    == (SlaveDescriptor { state: states@[i], ..old(self).slaves@[i] }),
    {
        let n = self.slaves.len();
        let mut i: usize = 0;
        while i < n
            invariant
                i <= n,
                n == old(self).slaves@.len(),
                states@.len() == n,
                self.slaves@.len() == n,
                forall|j: int|
                    0 <= j < i ==> #[trigger] self.slaves@[j]
                        == (SlaveDescriptor { state: states@[j], ..old(self).slaves@[j] }),
                forall|j: int| i <= j < n ==> #[trigger] self.slaves@[j] == old(self).slaves@[j],
            decreases n - i,
        {
            let mut d = self.slaves[i];
            d.state = states[i];
            self.slaves.set(i, d);
            i += 1;
        }
    }

    /// Record the AL-status error codes a batched state read surfaced,
    /// one per slave in registry order; everything else is untouched.
    pub fn record_al_statuses(&mut self, codes: &Vec<u16>)
        requires
            codes@.len() == old(self).slaves@.len(),
        ensures
            final(self).slaves@.len() == old(self).slaves@.len(),
            forall|i: int|
                0 <= i < old(self).slaves@.len() ==> #[trigger] final(self).slaves@[i]
                    == (SlaveDescriptor { al_status: codes@[i], ..old(self).slaves@[i] }),
    {
        let n = self.slaves.len();
        let mut i: usize = 0;
        while i < n
            invariant
                i <= n,
                n == old(self).slaves@.len(),
                codes@.len() == n,
                self.slaves@.len() == n,
                forall|j: int|
                    0 <= j < i ==> #[trigger] self.slaves@[j]
                        == (SlaveDescriptor { al_status: codes@[j], ..old(self).slaves@[j] }),
                forall|j: int| i <= j < n ==> #[trigger] self.slaves@[j] == old(self).slaves@[j],
            decreases n - i,
        {
            let mut d = self.slaves[i];
            d.al_status = codes[i];
            self.slaves.set(i, d);
            i += 1;
        }
    }

    /// Whether some slave of the given group is still short of
    /// OPERATIONAL — the condition that keeps the health monitor armed.
    pub open spec fn spec_any_degraded(self, group: u8) -> bool {
        exists|i: int|
            0 <= i < self.slaves@.len() && (#[trigger] self.slaves@[i]).group == group
                && self.slaves@[i].state != SlaveState::Operational
    }

    pub fn any_degraded(&self, group: u8) -> (r: bool)
        ensures
            r == self.spec_any_degraded(group),
    {
        let n = self.slaves.len();
        let mut i: usize = 0;
        while i < n
            invariant
                i <= n,
                n == self.slaves@.len(),
                forall|j: int|
                    0 <= j < i ==> !((#[trigger] self.slaves@[j]).group == group
                        && self.slaves@[j].state != SlaveState::Operational),
            decreases n - i,
        {
            let d = &self.slaves[i];
            if d.group == group && !d.state.is_operational() {
                return true;
            }
            i += 1;
        }
        false
    }
}

} // verus!
