//! The lifecycle manager: the state machine that drives the network from
//! discovery to OPERATIONAL, and the shutdown sequence.
//!
//! The machine owns every decision of bring-up; the network stack only
//! executes the operation the machine asks for next and reports what
//! happened.  The driver loop is therefore trivial: ask `next_action`,
//! perform it, feed the result to `step`, until the machine settles.
//! Bring-up is all-or-nothing: the machine ends `Done` with everything in
//! place for a session, or `Failed` with the handle closed and no session
//! derivable — never in between.

use vstd::prelude::*;
use crate::errors::FieldbusError;
use crate::exchange::{RoundtripStats, STATE_TIMEOUT_US};
use crate::group::{lemma_totals_nonneg, spec_map_group, map_group, Group};
use crate::image::ProcessImage;
use crate::registry::{descriptor_from_scan, SlaveInfo, SlaveRegistry};
use crate::session::MasterSession;
use crate::state::{SlaveState, StateRequest, Target};

verus! {

/// How many exchange-plus-state-check polls the machine spends waiting
/// for OPERATIONAL before giving up.
pub const POLL_BUDGET: u8 = 10;

/// Bounded wait for the whole network to confirm SAFE_OP.
pub const SAFEOP_CONFIRM_TIMEOUT_US: u32 = STATE_TIMEOUT_US * 4;

/// Bounded wait for one OPERATIONAL poll's state read.
pub const OP_POLL_TIMEOUT_US: u32 = STATE_TIMEOUT_US / 10;

/// One operation the machine asks the network stack to perform.
#[derive(Clone, Copy, PartialEq, Eq, Structural, Debug)]
pub enum AdapterAction {
    /// Open the link on the configured interface.
    OpenAdapter,
    /// Enumerate the slaves on the bus.
    ScanSlaves,
    /// Map the discovered process data on the stack's side.
    MapIo,
    /// Configure distributed-clock synchronization; internals are the
    /// stack's business.
    ConfigureClockSync,
    /// Issue a state request to one slave or to all of them.
    WriteState(Target, StateRequest),
    /// Wait, bounded by the given microseconds, for the target to report
    /// the given state, and read back what it reports.
    CheckState(Target, SlaveState, u32),
    /// Perform one cyclic send/receive round.
    Exchange,
    /// Refresh all per-slave states, to surface diagnostics.
    ReadStates,
    /// Release the link.
    CloseAdapter,
    /// The machine has settled; there is nothing left to perform.
    Finished,
}

/// What the network stack reports back for the matching action.
#[derive(Debug)]
pub enum AdapterEvent {
    /// Whether the link could be opened.
    Opened(bool),
    /// The scan's findings, one record per discovered slave.
    Scanned(Vec<SlaveInfo>),
    /// Whether the stack completed its I/O mapping.
    Mapped(bool),
    ClockConfigured,
    /// A state write was issued.
    Written,
    /// The state the target reported when the bounded wait ended.
    StateChecked(SlaveState),
    /// The raw working counter of an exchange round.
    Exchanged(i32),
    StatesRead,
    Closed,
}

#[derive(Clone, Copy, PartialEq, Eq, Structural, Debug)]
pub enum BringUpPhase {
    /// Nothing has happened yet.
    Start,
    /// The link is open.
    Opened,
    /// The scan found at least one slave.
    Scanned,
    /// The process data is mapped and the group model is built.
    Mapped,
    /// Distributed clocks are configured.
    ClockReady,
    /// SAFE_OP has been broadcast-requested.
    SafeOpRequested,
    /// SAFE_OP confirmation has been awaited; one exchange now primes the
    /// slaves' outputs, which some refuse OPERATIONAL without.
    Priming,
    /// The priming round is done; OPERATIONAL is about to be requested.
    RequestingOp,
    /// Polling for OPERATIONAL: an exchange round comes next.
    PollExchange,
    /// Polling for OPERATIONAL: a bounded state read comes next.
    PollCheck,
    /// The poll budget ran out; full states are read back so the caller
    /// sees per-slave diagnostics before the failure is reported.
    Diagnosing,
    /// Bring-up failed after the link was opened; the handle must be
    /// released before the machine settles.
    Cleanup,
    /// Settled: bring-up failed, the handle is closed, `error` says why.
    Failed,
    /// Settled: the network is OPERATIONAL and a session can be built.
    Done,
}

pub struct LifecycleMachine {
    pub phase: BringUpPhase,
    /// The group this bring-up assembles.
    pub group_id: u8,
    /// Why bring-up failed; set from `Cleanup` on.
    pub error: Option<FieldbusError>,
    /// Whether the link is currently open on the stack's side.
    pub handle_open: bool,
    /// The scan's findings, once the scan succeeded.
    pub scanned: Vec<SlaveInfo>,
    /// The group model, once mapping succeeded.
    pub group: Option<Group>,
    /// Remaining OPERATIONAL polls.
    pub polls_left: u8,
}

impl LifecycleMachine {
    /// Phase-indexed invariant.  It carries the all-or-nothing guarantee:
    /// `Done` implies everything a session needs is in place, `Failed`
    /// implies the handle is released and a fatal error is recorded.
    pub open spec fn wf(self) -> bool {
        &&& (self.group matches Some(g) ==> spec_map_group(self.scanned@, self.group_id)
            == Some(g))
        &&& (self.error matches Some(e) ==> e.spec_is_session_fatal())
        &&& match self.phase {
            BringUpPhase::Start => !self.handle_open && self.group is None && self.error is None,
            BringUpPhase::Opened => self.handle_open && self.group is None && self.error is None,
            BringUpPhase::Scanned => self.handle_open && self.group is None
                && self.error is None && self.scanned@.len() > 0,
            BringUpPhase::Mapped => self.handle_open && self.group is Some && self.error is None,
            BringUpPhase::ClockReady => self.handle_open && self.group is Some
                && self.error is None,
            BringUpPhase::SafeOpRequested => self.handle_open && self.group is Some
                && self.error is None,
            BringUpPhase::Priming => self.handle_open && self.group is Some
                && self.error is None,
            BringUpPhase::RequestingOp => self.handle_open && self.group is Some
                && self.error is None,
            BringUpPhase::PollExchange => self.handle_open && self.group is Some
                && self.error is None && 1 <= self.polls_left <= POLL_BUDGET,
            BringUpPhase::PollCheck => self.handle_open && self.group is Some
                && self.error is None && 1 <= self.polls_left <= POLL_BUDGET,
            BringUpPhase::Diagnosing => self.handle_open && self.error is None,
            BringUpPhase::Cleanup => self.handle_open && self.error is Some,
            BringUpPhase::Failed => !self.handle_open && self.error is Some,
            BringUpPhase::Done => self.handle_open && self.group is Some
                && self.scanned@.len() > 0 && self.error is None,
        }
    }

    /// The machine has reached a terminal phase.
    pub open spec fn spec_is_settled(self) -> bool {
        self.phase is Failed || self.phase is Done
    }

    pub fn is_settled(&self) -> (r: bool)
        ensures
            r == self.spec_is_settled(),
    {
        matches!(self.phase, BringUpPhase::Failed | BringUpPhase::Done)
    }

    /// A fresh bring-up for the given group.
    pub fn new(group_id: u8) -> (r: LifecycleMachine)
        ensures
            r.wf(),
            r.phase is Start,
            r.group_id == group_id,
            !r.handle_open,
            r.scanned@.len() == 0,
            r.group is None,
            r.error is None,
    {
        LifecycleMachine {
            phase: BringUpPhase::Start,
            group_id,
            error: None,
            handle_open: false,
            scanned: Vec::new(),
            group: None,
            polls_left: 0,
        }
    }

    /// The operation to perform next; `Finished` once the machine has
    /// settled.
    pub open spec fn spec_next_action(self) -> AdapterAction {
        match self.phase {
            BringUpPhase::Start => AdapterAction::OpenAdapter,
            BringUpPhase::Opened => AdapterAction::ScanSlaves,
            BringUpPhase::Scanned => AdapterAction::MapIo,
            BringUpPhase::Mapped => AdapterAction::ConfigureClockSync,
            BringUpPhase::ClockReady => AdapterAction::WriteState(
                Target::Broadcast,
                StateRequest::SafeOp,
            ),
            BringUpPhase::SafeOpRequested => AdapterAction::CheckState(
                Target::Broadcast,
                SlaveState::SafeOp,
                SAFEOP_CONFIRM_TIMEOUT_US,
            ),
            BringUpPhase::Priming => AdapterAction::Exchange,
            BringUpPhase::RequestingOp => AdapterAction::WriteState(
                Target::Broadcast,
                StateRequest::Operational,
            ),
            BringUpPhase::PollExchange => AdapterAction::Exchange,
            BringUpPhase::PollCheck => AdapterAction::CheckState(
                Target::Broadcast,
                SlaveState::Operational,
                OP_POLL_TIMEOUT_US,
            ),
            BringUpPhase::Diagnosing => AdapterAction::ReadStates,
            BringUpPhase::Cleanup => AdapterAction::CloseAdapter,
            BringUpPhase::Failed => AdapterAction::Finished,
            BringUpPhase::Done => AdapterAction::Finished,
        }
    }

    pub fn next_action(&self) -> (a: AdapterAction)
        ensures
            a == self.spec_next_action(),
    {
        match self.phase {
            BringUpPhase::Start => AdapterAction::OpenAdapter,
            BringUpPhase::Opened => AdapterAction::ScanSlaves,
            BringUpPhase::Scanned => AdapterAction::MapIo,
            BringUpPhase::Mapped => AdapterAction::ConfigureClockSync,
            BringUpPhase::ClockReady => AdapterAction::WriteState(
                Target::Broadcast,
                StateRequest::SafeOp,
            ),
            BringUpPhase::SafeOpRequested => AdapterAction::CheckState(
                Target::Broadcast,
                SlaveState::SafeOp,
                SAFEOP_CONFIRM_TIMEOUT_US,
            ),
            BringUpPhase::Priming => AdapterAction::Exchange,
            BringUpPhase::RequestingOp => AdapterAction::WriteState(
                Target::Broadcast,
                StateRequest::Operational,
            ),
            BringUpPhase::PollExchange => AdapterAction::Exchange,
            BringUpPhase::PollCheck => AdapterAction::CheckState(
                Target::Broadcast,
                SlaveState::Operational,
                OP_POLL_TIMEOUT_US,
            ),
            BringUpPhase::Diagnosing => AdapterAction::ReadStates,
            BringUpPhase::Cleanup => AdapterAction::CloseAdapter,
            BringUpPhase::Failed => AdapterAction::Finished,
            BringUpPhase::Done => AdapterAction::Finished,
        }
    }

    /// The machine after consuming one event.  An event that does not
    /// answer the pending action leaves the machine unchanged.
    pub open spec fn spec_step(self, ev: AdapterEvent) -> LifecycleMachine {
        match (self.phase, ev) {
            (BringUpPhase::Start, AdapterEvent::Opened(ok)) => if ok {
                LifecycleMachine { phase: BringUpPhase::Opened, handle_open: true, ..self }
            } else {
                LifecycleMachine {
                    phase: BringUpPhase::Failed,
                    error: Some(FieldbusError::AdapterUnavailable),
                    ..self
                }
            },
            (BringUpPhase::Opened, AdapterEvent::Scanned(infos)) => if infos@.len() == 0 {
                LifecycleMachine {
                    phase: BringUpPhase::Cleanup,
                    error: Some(FieldbusError::NoSlavesFound),
                    ..self
                }
            } else {
                LifecycleMachine { phase: BringUpPhase::Scanned, scanned: infos, ..self }
            },
            (BringUpPhase::Scanned, AdapterEvent::Mapped(ok)) => if !ok {
                LifecycleMachine {
                    phase: BringUpPhase::Cleanup,
                    error: Some(FieldbusError::MappingFailure),
                    ..self
                }
            } else {
                match spec_map_group(self.scanned@, self.group_id) {
                    Some(g) => LifecycleMachine {
                        phase: BringUpPhase::Mapped,
                        group: Some(g),
                        ..self
                    },
                    None => LifecycleMachine {
                        phase: BringUpPhase::Cleanup,
                        error: Some(FieldbusError::MappingFailure),
                        ..self
                    },
                }
            },
            (BringUpPhase::Mapped, AdapterEvent::ClockConfigured) => LifecycleMachine {
                phase: BringUpPhase::ClockReady,
                ..self
            },
            (BringUpPhase::ClockReady, AdapterEvent::Written) => LifecycleMachine {
                phase: BringUpPhase::SafeOpRequested,
                ..self
            },
            (BringUpPhase::SafeOpRequested, AdapterEvent::StateChecked(_)) => LifecycleMachine {
                phase: BringUpPhase::Priming,
                ..self
            },
            (BringUpPhase::Priming, AdapterEvent::Exchanged(_)) => LifecycleMachine {
                phase: BringUpPhase::RequestingOp,
                ..self
            },
            (BringUpPhase::RequestingOp, AdapterEvent::Written) => LifecycleMachine {
                phase: BringUpPhase::PollExchange,
                polls_left: POLL_BUDGET,
                ..self
            },
            (BringUpPhase::PollExchange, AdapterEvent::Exchanged(_)) => LifecycleMachine {
                phase: BringUpPhase::PollCheck,
                ..self
            },
            (BringUpPhase::PollCheck, AdapterEvent::StateChecked(st)) => if st
                == SlaveState::Operational {
                LifecycleMachine { phase: BringUpPhase::Done, ..self }
            } else if self.polls_left <= 1 {
                LifecycleMachine { phase: BringUpPhase::Diagnosing, polls_left: 0, ..self }
            } else {
                LifecycleMachine {
                    phase: BringUpPhase::PollExchange,
                    polls_left: (self.polls_left - 1) as u8,
                    ..self
                }
            },
            (BringUpPhase::Diagnosing, AdapterEvent::StatesRead) => LifecycleMachine {
                phase: BringUpPhase::Cleanup,
                error: Some(FieldbusError::OperationalTimeout),
                ..self
            },
            (BringUpPhase::Cleanup, AdapterEvent::Closed) => LifecycleMachine {
                phase: BringUpPhase::Failed,
                handle_open: false,
                ..self
            },
            _ => self,
        }
    }

    /// Consume one event.
    pub fn step(&mut self, ev: AdapterEvent)
        ensures
            *final(self) == old(self).spec_step(ev),
    {
        let phase = self.phase;
        match (phase, ev) {
            (BringUpPhase::Start, AdapterEvent::Opened(ok)) => {
                if ok {
                    self.phase = BringUpPhase::Opened;
                    self.handle_open = true;
                } else {
                    self.phase = BringUpPhase::Failed;
                    self.error = Some(FieldbusError::AdapterUnavailable);
                }
            },
            (BringUpPhase::Opened, AdapterEvent::Scanned(infos)) => {
                if infos.len() == 0 {
                    self.phase = BringUpPhase::Cleanup;
                    self.error = Some(FieldbusError::NoSlavesFound);
                } else {
                    self.phase = BringUpPhase::Scanned;
                    self.scanned = infos;
                }
            },
            (BringUpPhase::Scanned, AdapterEvent::Mapped(ok)) => {
                if !ok {
                    self.phase = BringUpPhase::Cleanup;
                    self.error = Some(FieldbusError::MappingFailure);
                } else {
                    match map_group(&self.scanned, self.group_id) {
                        Ok(g) => {
                            self.phase = BringUpPhase::Mapped;
                            self.group = Some(g);
                        },
                        Err(_) => {
                            self.phase = BringUpPhase::Cleanup;
                            self.error = Some(FieldbusError::MappingFailure);
                        },
                    }
                }
            },
            (BringUpPhase::Mapped, AdapterEvent::ClockConfigured) => {
                self.phase = BringUpPhase::ClockReady;
            },
            (BringUpPhase::ClockReady, AdapterEvent::Written) => {
                self.phase = BringUpPhase::SafeOpRequested;
            },
            (BringUpPhase::SafeOpRequested, AdapterEvent::StateChecked(_)) => {
                self.phase = BringUpPhase::Priming;
            },
            (BringUpPhase::Priming, AdapterEvent::Exchanged(_)) => {
                self.phase = BringUpPhase::RequestingOp;
            },
            (BringUpPhase::RequestingOp, AdapterEvent::Written) => {
                self.phase = BringUpPhase::PollExchange;
                self.polls_left = POLL_BUDGET;
            },
            (BringUpPhase::PollExchange, AdapterEvent::Exchanged(_)) => {
                self.phase = BringUpPhase::PollCheck;
            },
            (BringUpPhase::PollCheck, AdapterEvent::StateChecked(st)) => {
                if matches!(st, SlaveState::Operational) {
                    self.phase = BringUpPhase::Done;
                } else if self.polls_left <= 1 {
                    self.phase = BringUpPhase::Diagnosing;
                    self.polls_left = 0;
                } else {
                    self.phase = BringUpPhase::PollExchange;
                    self.polls_left = self.polls_left - 1;
                }
            },
            (BringUpPhase::Diagnosing, AdapterEvent::StatesRead) => {
                self.phase = BringUpPhase::Cleanup;
                self.error = Some(FieldbusError::OperationalTimeout);
            },
            (BringUpPhase::Cleanup, AdapterEvent::Closed) => {
                self.phase = BringUpPhase::Failed;
                self.handle_open = false;
            },
            _ => {},
        }
    }

    /// Settle the bring-up into its result: the session when the network
    /// reached OPERATIONAL, the recorded error otherwise.  On failure no
    /// process image and no registry were ever allocated.
    pub fn into_session(self) -> (r: Result<MasterSession, FieldbusError>)
        requires
            self.wf(),
            self.spec_is_settled(),
        ensures
            self.phase is Done ==> (r matches Ok(s) && {
                &&& s.wf()
                &&& s.group_id == self.group_id
                &&& Some(s.group) == self.group
                &&& s.registry.slaves@.len() == self.scanned@.len()
                &&& forall|i: int|
                    0 <= i < self.scanned@.len() ==> descriptor_from_scan(
                        #[trigger] s.registry.slaves@[i],
                        i + 1,
                        self.group_id,
                        SlaveState::Operational,
                        self.scanned@[i],
                    )
                &&& s.image.spec_output_count() == s.group.output_bytes
                &&& s.image.spec_input_count() == s.group.input_bytes
                &&& s.roundtrip_time == 0
                &&& !s.stats.recorded
            }),
            self.phase is Failed ==> (self.error matches Some(e) && r == Err::<
                MasterSession,
                FieldbusError,
            >(e)),
    {
        match self.phase {
            BringUpPhase::Done => {
                proof {
                    lemma_totals_nonneg(self.scanned@);
                }
                let g = self.group.unwrap();
                let image = ProcessImage::new(g.output_bytes, g.input_bytes);
                let registry = SlaveRegistry::from_scan(
                    &self.scanned,
                    self.group_id,
                    SlaveState::Operational,
                );
                Ok(
                    MasterSession {
                        group_id: self.group_id,
                        group: g,
                        registry,
                        image,
                        roundtrip_time: 0,
                        stats: RoundtripStats::new(),
                    },
                )
            },
            BringUpPhase::Failed => Err(self.error.unwrap()),
            _ => {
                proof {
                    assert(false);
                }
                Err(FieldbusError::AdapterUnavailable)
            },
        }
    }
}

/// The shutdown sequence, in order: best-effort INIT broadcast so every
/// slave leaves cyclic operation, then release of the link.  Errors along
/// the way are not propagated — the handle must be released regardless.
pub fn shutdown_actions() -> (r: Vec<AdapterAction>)
    ensures
        r@.len() == 2,
        r@[0] == AdapterAction::WriteState(Target::Broadcast, StateRequest::Init),
        r@[1] == AdapterAction::CloseAdapter,
{
    let mut v: Vec<AdapterAction> = Vec::new();
    v.push(AdapterAction::WriteState(Target::Broadcast, StateRequest::Init));
    v.push(AdapterAction::CloseAdapter);
    v
}

/// Law: every step preserves the machine's invariant, so bring-up is
/// all-or-nothing along every event sequence: a machine that settles
/// `Done` holds an open handle, a nonempty scan and a mapped group — all
/// of {open, scan, map, OPERATIONAL} succeeded — and a machine that
/// settles `Failed` holds a fatal error and no open handle, so no usable
/// session exists and the handle is not leaked.
pub proof fn lemma_bring_up_all_or_nothing(m: LifecycleMachine, ev: AdapterEvent)
    requires
        m.wf(),
    ensures
        m.spec_step(ev).wf(),
        m.spec_step(ev).phase is Done ==> m.spec_step(ev).handle_open
            && m.spec_step(ev).scanned@.len() > 0 && m.spec_step(ev).group is Some,
        m.spec_step(ev).phase is Failed ==> !m.spec_step(ev).handle_open
            && m.spec_step(ev).error is Some,
{
}

} // verus!
