use fieldbus_master::group::Group;
use fieldbus_master::health::{
    health_pass, repair_request, settle, triage, RepairAction, RepairOutcome,
};
use fieldbus_master::registry::{SlaveDescriptor, SlaveRegistry};
use fieldbus_master::state::{SlaveState, StateRequest};

fn slave(index: u16, group: u8, state: SlaveState, lost: bool) -> SlaveDescriptor {
    SlaveDescriptor {
        index,
        vendor_id: 0x21,
        product_id: 0x100 + index as u32,
        revision_id: 1,
        group,
        state,
        lost,
        al_status: 0,
        output_bytes: 1,
        input_bytes: 1,
    }
}

fn test_group() -> Group {
    Group {
        id: 0,
        output_offset: 0,
        output_bytes: 3,
        input_offset: 3,
        input_bytes: 3,
        outputs_wkc: 3,
        inputs_wkc: 3,
        docheckstate: false,
    }
}

fn no_op_outcome() -> RepairOutcome {
    RepairOutcome {
        reconfig_ok: false,
        probed_state: SlaveState::Absent,
        recover_ok: false,
    }
}

#[test]
fn triage_follows_the_priority_order() {
    assert_eq!(triage(&slave(1, 1, SlaveState::Absent, false), 0), RepairAction::Skip);
    assert_eq!(triage(&slave(1, 0, SlaveState::Operational, false), 0), RepairAction::Healthy);
    assert_eq!(triage(&slave(1, 0, SlaveState::Operational, true), 0), RepairAction::MarkFound);
    assert_eq!(triage(&slave(1, 0, SlaveState::SafeOpError, false), 0), RepairAction::AckError);
    assert_eq!(triage(&slave(1, 0, SlaveState::SafeOp, false), 0), RepairAction::Promote);
    assert_eq!(triage(&slave(1, 0, SlaveState::Init, false), 0), RepairAction::Reconfigure);
    assert_eq!(triage(&slave(1, 0, SlaveState::PreOp, true), 0), RepairAction::Reconfigure);
    assert_eq!(triage(&slave(1, 0, SlaveState::Absent, false), 0), RepairAction::Probe);
    assert_eq!(triage(&slave(1, 0, SlaveState::Absent, true), 0), RepairAction::Recover);
}

#[test]
fn repair_requests_match_their_actions() {
    assert_eq!(repair_request(RepairAction::AckError), Some(StateRequest::SafeOpAck));
    assert_eq!(repair_request(RepairAction::Promote), Some(StateRequest::Operational));
    assert_eq!(repair_request(RepairAction::Skip), None);
    assert_eq!(repair_request(RepairAction::Healthy), None);
    assert_eq!(repair_request(RepairAction::MarkFound), None);
    assert_eq!(repair_request(RepairAction::Reconfigure), None);
    assert_eq!(repair_request(RepairAction::Probe), None);
    assert_eq!(repair_request(RepairAction::Recover), None);
}

#[test]
fn probe_that_still_reads_absent_marks_the_slave_lost() {
    let mut d = slave(1, 0, SlaveState::Absent, false);
    let outcome = RepairOutcome { probed_state: SlaveState::Absent, ..no_op_outcome() };
    settle(&mut d, 0, &outcome);
    assert!(d.lost);
    assert_eq!(d.state, SlaveState::Absent);
}

#[test]
fn probe_that_reads_a_state_back_does_not_mark_lost() {
    let mut d = slave(1, 0, SlaveState::Absent, false);
    let outcome = RepairOutcome { probed_state: SlaveState::Init, ..no_op_outcome() };
    settle(&mut d, 0, &outcome);
    assert!(!d.lost);
    assert_eq!(d.state, SlaveState::Init);
}

#[test]
fn operational_slave_marked_lost_is_found_without_recovery() {
    // The outcome reports every operation as failed; clearing the flag
    // must not depend on any of them.
    let mut d = slave(1, 0, SlaveState::Operational, true);
    settle(&mut d, 0, &no_op_outcome());
    assert!(!d.lost);
    assert_eq!(d.state, SlaveState::Operational);
}

#[test]
fn successful_reconfiguration_clears_lost() {
    let mut d = slave(1, 0, SlaveState::PreOp, true);
    let outcome = RepairOutcome { reconfig_ok: true, ..no_op_outcome() };
    settle(&mut d, 0, &outcome);
    assert!(!d.lost);
}

#[test]
fn failed_reconfiguration_keeps_lost() {
    let mut d = slave(1, 0, SlaveState::PreOp, true);
    settle(&mut d, 0, &no_op_outcome());
    assert!(d.lost);
}

#[test]
fn successful_recovery_clears_lost() {
    let mut d = slave(1, 0, SlaveState::Absent, true);
    let outcome = RepairOutcome { recover_ok: true, ..no_op_outcome() };
    settle(&mut d, 0, &outcome);
    assert!(!d.lost);
}

#[test]
fn docheckstate_clears_exactly_when_the_last_slave_is_operational() {
    // One slave walks SAFE_OP+ERROR -> SAFE_OP -> OPERATIONAL across
    // passes while the other two are already OPERATIONAL.
    let mut registry = SlaveRegistry {
        slaves: vec![
            slave(1, 0, SlaveState::Operational, false),
            slave(2, 0, SlaveState::Operational, false),
            slave(3, 0, SlaveState::SafeOpError, false),
        ],
    };
    let mut group = test_group();
    let outcomes = vec![no_op_outcome(); 3];

    let refreshed = vec![
        SlaveState::Operational,
        SlaveState::Operational,
        SlaveState::SafeOpError,
    ];
    health_pass(&mut registry, &mut group, &refreshed, &outcomes);
    assert!(group.docheckstate);

    let refreshed = vec![
        SlaveState::Operational,
        SlaveState::Operational,
        SlaveState::SafeOp,
    ];
    health_pass(&mut registry, &mut group, &refreshed, &outcomes);
    assert!(group.docheckstate);

    let refreshed = vec![
        SlaveState::Operational,
        SlaveState::Operational,
        SlaveState::Operational,
    ];
    health_pass(&mut registry, &mut group, &refreshed, &outcomes);
    assert!(!group.docheckstate);
    assert!(registry.slaves.iter().all(|d| d.state == SlaveState::Operational));
}

#[test]
fn lost_slave_round_trip_across_two_passes() {
    let mut registry = SlaveRegistry {
        slaves: vec![slave(1, 0, SlaveState::Operational, false)],
    };
    let mut group = test_group();
    let outcomes = vec![no_op_outcome()];

    // The slave stops answering: the probe still reads absent, so the
    // pass marks it lost.
    health_pass(&mut registry, &mut group, &vec![SlaveState::Absent], &outcomes);
    assert!(registry.slaves[0].lost);
    assert!(group.docheckstate);

    // It reports OPERATIONAL again: one pass clears the flag, with no
    // recovery operation consulted.
    health_pass(&mut registry, &mut group, &vec![SlaveState::Operational], &outcomes);
    assert!(!registry.slaves[0].lost);
    assert!(!group.docheckstate);
}

#[test]
fn slaves_of_other_groups_are_left_alone() {
    let mut registry = SlaveRegistry {
        slaves: vec![
            slave(1, 0, SlaveState::Operational, false),
            slave(2, 7, SlaveState::Absent, false),
        ],
    };
    let mut group = test_group();
    let outcomes = vec![no_op_outcome(); 2];
    let refreshed = vec![SlaveState::Operational, SlaveState::Absent];
    health_pass(&mut registry, &mut group, &refreshed, &outcomes);
    // The foreign slave neither arms docheckstate nor gets marked lost.
    assert!(!group.docheckstate);
    assert!(!registry.slaves[1].lost);
    assert_eq!(registry.slaves[1].state, SlaveState::Absent);
}

#[test]
fn health_pass_leaves_the_mapping_untouched() {
    let mut registry = SlaveRegistry {
        slaves: vec![slave(1, 0, SlaveState::SafeOp, false)],
    };
    let mut group = test_group();
    let before = group;
    health_pass(
        &mut registry,
        &mut group,
        &vec![SlaveState::SafeOp],
        &vec![no_op_outcome()],
    );
    assert_eq!(group.output_bytes, before.output_bytes);
    assert_eq!(group.input_bytes, before.input_bytes);
    assert_eq!(group.outputs_wkc, before.outputs_wkc);
    assert_eq!(group.inputs_wkc, before.inputs_wkc);
    assert_eq!(group.output_offset, before.output_offset);
    assert_eq!(group.input_offset, before.input_offset);
}
