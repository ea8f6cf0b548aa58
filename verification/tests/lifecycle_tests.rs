use fieldbus_master::errors::FieldbusError;
use fieldbus_master::lifecycle::{
    shutdown_actions, AdapterAction, AdapterEvent, BringUpPhase, LifecycleMachine,
    OP_POLL_TIMEOUT_US, SAFEOP_CONFIRM_TIMEOUT_US,
};
use fieldbus_master::registry::SlaveInfo;
use fieldbus_master::state::{SlaveState, StateRequest, Target};

fn three_slaves() -> Vec<SlaveInfo> {
    vec![
        SlaveInfo { vendor_id: 0x21, product_id: 0x7500, revision_id: 1, output_bytes: 1, input_bytes: 1 },
        SlaveInfo { vendor_id: 0x21, product_id: 0x7501, revision_id: 1, output_bytes: 2, input_bytes: 0 },
        SlaveInfo { vendor_id: 0x21, product_id: 0x7502, revision_id: 1, output_bytes: 0, input_bytes: 4 },
    ]
}

#[test]
fn bring_up_reaches_operational_within_poll_budget() {
    // Three slaves; the broadcast state reads report INIT, then SAFE_OP,
    // then OPERATIONAL within two poll cycles of the budget of ten.
    let mut m = LifecycleMachine::new(0);
    assert!(matches!(m.next_action(), AdapterAction::OpenAdapter));
    m.step(AdapterEvent::Opened(true));
    assert!(matches!(m.next_action(), AdapterAction::ScanSlaves));
    m.step(AdapterEvent::Scanned(three_slaves()));
    assert!(matches!(m.phase, BringUpPhase::Scanned));
    assert!(matches!(m.next_action(), AdapterAction::MapIo));
    m.step(AdapterEvent::Mapped(true));
    assert!(matches!(m.phase, BringUpPhase::Mapped));
    assert!(matches!(m.next_action(), AdapterAction::ConfigureClockSync));
    m.step(AdapterEvent::ClockConfigured);
    assert_eq!(
        m.next_action(),
        AdapterAction::WriteState(Target::Broadcast, StateRequest::SafeOp)
    );
    m.step(AdapterEvent::Written);
    assert_eq!(
        m.next_action(),
        AdapterAction::CheckState(Target::Broadcast, SlaveState::SafeOp, SAFEOP_CONFIRM_TIMEOUT_US)
    );
    m.step(AdapterEvent::StateChecked(SlaveState::Init));
    // One exchange primes the outputs before OPERATIONAL is requested.
    assert!(matches!(m.next_action(), AdapterAction::Exchange));
    m.step(AdapterEvent::Exchanged(7));
    assert_eq!(
        m.next_action(),
        AdapterAction::WriteState(Target::Broadcast, StateRequest::Operational)
    );
    m.step(AdapterEvent::Written);

    // Poll cycle 1: exchange, then a state read that still says SAFE_OP.
    assert!(matches!(m.next_action(), AdapterAction::Exchange));
    m.step(AdapterEvent::Exchanged(7));
    assert_eq!(
        m.next_action(),
        AdapterAction::CheckState(Target::Broadcast, SlaveState::Operational, OP_POLL_TIMEOUT_US)
    );
    m.step(AdapterEvent::StateChecked(SlaveState::SafeOp));
    assert!(matches!(m.phase, BringUpPhase::PollExchange));

    // Poll cycle 2: the network reports OPERATIONAL.
    m.step(AdapterEvent::Exchanged(7));
    m.step(AdapterEvent::StateChecked(SlaveState::Operational));
    assert!(matches!(m.phase, BringUpPhase::Done));
    assert!(m.is_settled());
    assert!(matches!(m.next_action(), AdapterAction::Finished));

    let session = m.into_session().expect("bring-up succeeded");
    assert_eq!(session.registry.slaves.len(), 3);
    assert_eq!(session.registry.slaves[0].index, 1);
    assert_eq!(session.registry.slaves[2].index, 3);
    assert_eq!(session.registry.slaves[1].vendor_id, 0x21);
    assert!(session
        .registry
        .slaves
        .iter()
        .all(|d| d.state == SlaveState::Operational && !d.lost));
    // Sequential mapping: 3 output bytes then 5 input bytes.
    assert_eq!(session.group.output_offset, 0);
    assert_eq!(session.group.output_bytes, 3);
    assert_eq!(session.group.input_offset, 3);
    assert_eq!(session.group.input_bytes, 5);
    assert_eq!(session.image.output_count(), 3);
    assert_eq!(session.image.input_count(), 5);
    // Two output carriers, two input carriers: expected WKC 2*2 + 2.
    assert_eq!(session.group.expected_wkc(), 6);
    assert_eq!(session.roundtrip_time, 0);
    assert!(!session.stats.recorded);
}

#[test]
fn adapter_open_failure_allocates_nothing() {
    let mut m = LifecycleMachine::new(0);
    m.step(AdapterEvent::Opened(false));
    assert!(matches!(m.phase, BringUpPhase::Failed));
    assert!(!m.handle_open);
    assert!(m.group.is_none());
    assert_eq!(m.scanned.len(), 0);
    assert_eq!(m.error, Some(FieldbusError::AdapterUnavailable));
    assert!(matches!(m.next_action(), AdapterAction::Finished));
    assert!(matches!(m.into_session(), Err(FieldbusError::AdapterUnavailable)));
}

#[test]
fn empty_scan_fails_and_closes_the_handle() {
    let mut m = LifecycleMachine::new(0);
    m.step(AdapterEvent::Opened(true));
    m.step(AdapterEvent::Scanned(Vec::new()));
    assert!(matches!(m.phase, BringUpPhase::Cleanup));
    assert!(m.handle_open);
    assert!(matches!(m.next_action(), AdapterAction::CloseAdapter));
    m.step(AdapterEvent::Closed);
    assert!(matches!(m.phase, BringUpPhase::Failed));
    assert!(!m.handle_open);
    assert!(matches!(m.into_session(), Err(FieldbusError::NoSlavesFound)));
}

#[test]
fn stack_mapping_failure_is_fatal() {
    let mut m = LifecycleMachine::new(0);
    m.step(AdapterEvent::Opened(true));
    m.step(AdapterEvent::Scanned(three_slaves()));
    m.step(AdapterEvent::Mapped(false));
    assert!(matches!(m.phase, BringUpPhase::Cleanup));
    m.step(AdapterEvent::Closed);
    assert!(matches!(m.into_session(), Err(FieldbusError::MappingFailure)));
}

#[test]
fn oversized_scan_fails_mapping() {
    // One slave asking for more bytes than the image capacity holds.
    let mut m = LifecycleMachine::new(0);
    m.step(AdapterEvent::Opened(true));
    m.step(AdapterEvent::Scanned(vec![SlaveInfo {
        vendor_id: 1,
        product_id: 1,
        revision_id: 1,
        output_bytes: 5000,
        input_bytes: 0,
    }]));
    m.step(AdapterEvent::Mapped(true));
    assert!(matches!(m.phase, BringUpPhase::Cleanup));
    assert_eq!(m.error, Some(FieldbusError::MappingFailure));
    m.step(AdapterEvent::Closed);
    assert!(matches!(m.into_session(), Err(FieldbusError::MappingFailure)));
}

#[test]
fn poll_budget_exhaustion_reports_operational_timeout() {
    let mut m = LifecycleMachine::new(0);
    m.step(AdapterEvent::Opened(true));
    m.step(AdapterEvent::Scanned(three_slaves()));
    m.step(AdapterEvent::Mapped(true));
    m.step(AdapterEvent::ClockConfigured);
    m.step(AdapterEvent::Written);
    m.step(AdapterEvent::StateChecked(SlaveState::SafeOp));
    m.step(AdapterEvent::Exchanged(6));
    m.step(AdapterEvent::Written);
    // All ten polls read back SAFE_OP; the budget runs out.
    for _ in 0..10 {
        assert!(matches!(m.next_action(), AdapterAction::Exchange));
        m.step(AdapterEvent::Exchanged(4));
        m.step(AdapterEvent::StateChecked(SlaveState::SafeOp));
    }
    // Diagnostics are surfaced before the failure settles.
    assert!(matches!(m.phase, BringUpPhase::Diagnosing));
    assert!(matches!(m.next_action(), AdapterAction::ReadStates));
    m.step(AdapterEvent::StatesRead);
    assert!(matches!(m.phase, BringUpPhase::Cleanup));
    m.step(AdapterEvent::Closed);
    assert!(!m.handle_open);
    assert!(matches!(m.into_session(), Err(FieldbusError::OperationalTimeout)));
}

#[test]
fn unexpected_events_leave_the_machine_unchanged() {
    let mut m = LifecycleMachine::new(0);
    m.step(AdapterEvent::Closed);
    m.step(AdapterEvent::Exchanged(3));
    assert!(matches!(m.phase, BringUpPhase::Start));
    assert!(!m.handle_open);
}

#[test]
fn shutdown_requests_init_then_closes() {
    let actions = shutdown_actions();
    assert_eq!(actions.len(), 2);
    assert_eq!(
        actions[0],
        AdapterAction::WriteState(Target::Broadcast, StateRequest::Init)
    );
    assert_eq!(actions[1], AdapterAction::CloseAdapter);
}

#[test]
fn session_fatal_errors_are_exactly_the_bring_up_kinds() {
    assert!(FieldbusError::AdapterUnavailable.is_session_fatal());
    assert!(FieldbusError::NoSlavesFound.is_session_fatal());
    assert!(FieldbusError::MappingFailure.is_session_fatal());
    assert!(FieldbusError::OperationalTimeout.is_session_fatal());
    assert!(!FieldbusError::ExchangeTimeout.is_session_fatal());
    assert!(!FieldbusError::WkcMismatch.is_session_fatal());
    assert!(!FieldbusError::SlaveLost.is_session_fatal());
    assert!(!FieldbusError::RecoveryFailed.is_session_fatal());
}
