use rdma_session::actions::{Action, ReactorActions};
use rdma_session::cm::CmState;
use rdma_session::connection::ConnectionPoster;
use rdma_session::drain::{
    begin_connection_close_into, close_scanned, close_transitioned, drain_measured,
    drain_observers_scanned, drain_qp_destroyed, drain_quarantine_begun, drain_quarantine_scanned,
    drain_reclaimed, drain_rejected, handle_connection_drain_deadline_into, reclamation_error,
    CloseStep, DrainStep, IoQuarantineReport,
};
use rdma_session::error::{Error, IoError};
use rdma_session::registry::{ConnectionPhase, ConnectionRegistry};
use rdma_session::requests::AcceptRequest;
use rdma_session::session::{apply_io_effects, IoCoreEffects, OperationQuarantineEffect};
use rdma_session::slots::SlotRegistry;
use rdma_session::token::{ConnectionToken, OperationToken};

const GRACE: u64 = 5_000_000_000;

fn operation(slot: u32) -> OperationToken {
    OperationToken { slot, generation: 1 }
}

fn installed(qp_num: u32, operations: u32) -> (ConnectionRegistry, ConnectionToken) {
    let mut connections = ConnectionRegistry::new(1);
    let reservation = connections.try_reserve().unwrap();
    let token = connections
        .register(
            ConnectionPoster::Synthetic { qp_num, capabilities: None },
            None,
            None,
            Some(reservation),
        )
        .ok()
        .unwrap();
    for slot in 0..operations {
        connections.connection_mut(token).unwrap().io_ledger.add_accepted(operation(slot));
    }
    (connections, token)
}

fn begin_close(connections: &mut ConnectionRegistry, token: ConnectionToken) -> CloseStep {
    let cm = CmState::new(1);
    let mut accepts: SlotRegistry<AcceptRequest> = SlotRegistry::new(1);
    let mut actions = ReactorActions::new();
    let step = begin_connection_close_into(&cm, connections, &mut accepts, token, &mut actions);
    assert!(matches!(step, CloseStep::Transition));
    close_transitioned(connections, token, Ok(()), false, GRACE, 0, &mut actions)
}

/// A connection whose close began and whose observers have ended.
fn closing(qp_num: u32, operations: u32) -> (ConnectionRegistry, ConnectionToken) {
    let (mut connections, token) = installed(qp_num, operations);
    let CloseStep::ScanObservers { .. } = begin_close(&mut connections, token) else {
        panic!("the observers are scanned");
    };
    close_scanned(&mut connections, token, operations as usize, true, GRACE, 0);
    connections.take_deadline_requests(8);
    (connections, token)
}

#[test]
fn bounded_close_scan_continuation_preserves_drain_grace() {
    let (mut connections, token) = installed(28, 33);
    let CloseStep::ScanObservers { slot, budget, .. } = begin_close(&mut connections, token) else {
        panic!("the observers are scanned");
    };
    assert_eq!((slot, budget), (0, 30));
    close_scanned(&mut connections, token, budget, false, GRACE, 7);
    let immediate = connections.take_deadline_requests(1);
    assert_eq!(immediate.len(), 1);
    assert_eq!(immediate[0].at, 7);

    let actions = ReactorActions::new();
    let step =
        handle_connection_drain_deadline_into(&mut connections, token, false, 7, &actions);
    let DrainStep::ScanObservers { slot, .. } = step else {
        panic!("observer-scan continuation cannot destroy the QP");
    };
    assert_eq!(slot, 30);
    drain_observers_scanned(&mut connections, token, 33, true, GRACE, 7);
    let grace = connections.take_deadline_requests(1);
    assert_eq!(grace.len(), 1);
    assert!(
        grace[0].at > 7,
        "finishing the observer scan must arm the configured drain grace"
    );
    assert!(
        !connections.connection(token).unwrap().qp_destroyed,
        "observer-scan continuation cannot destroy the QP"
    );
}

#[test]
fn ambiguous_operation_ownership_quarantines_until_exact_removal() {
    let (mut connections, token) = closing(17, 1);
    let mut actions = ReactorActions::new();
    let step =
        handle_connection_drain_deadline_into(&mut connections, token, false, GRACE, &actions);
    let DrainStep::DestroyQp { operations, accepted } = step else {
        panic!("accepted work is reclaimed over a destroyed queue pair");
    };
    assert_eq!(operations, vec![operation(0)]);
    let step = drain_qp_destroyed(&mut connections, token, operations, accepted, Ok(true), &actions);
    let DrainStep::Measure { evidence, operations, accepted, room } = step else {
        panic!("a destroyed queue pair is evidence");
    };
    assert_eq!(room, 30);
    let step = drain_measured(&mut connections, token, evidence, operations, accepted, 1, GRACE);
    let DrainStep::Reclaim { evidence, operations, accepted, prefix } = step else {
        panic!("what fits is reclaimed");
    };
    assert!(matches!(
        reclamation_error(&connections, token, &evidence),
        Some(Error::TransportClosed)
    ));
    let step = drain_reclaimed(
        &mut connections,
        token,
        evidence,
        operations.len(),
        accepted,
        prefix,
        GRACE,
        &actions,
    );
    assert!(matches!(step, DrainStep::RejectQueued { quantum: 10 }));
    assert!(matches!(
        drain_rejected(&mut connections, token, false, GRACE),
        DrainStep::BeginQuarantine
    ));
    let report = IoQuarantineReport { outstanding_operations: 1, cq_debt: 1 };
    let step = drain_quarantine_begun(&mut connections, token, Some(report), &mut actions);
    assert!(matches!(step, DrainStep::ScanQuarantine { slot: 0, budget: 32, settle: true }));
    drain_quarantine_scanned(&mut connections, token, 1, true, true, GRACE);
    let connection = connections.connection(token).unwrap();
    assert!(matches!(
        connection.close.outcome().unwrap().into_result(),
        Err(Error::ConnectionQuarantined { outstanding_operations: 1, cq_debt: 1 })
    ));
    assert_eq!(connections.admission_snapshot().quarantined_bundles, 1);
    assert_eq!(connections.admission_snapshot().registered_live_qps, 0);
    assert!(connection.qp_destroyed);

    assert!(connections
        .connection_mut(token)
        .unwrap()
        .io_ledger
        .remove_accepted(operation(0)));
    apply_io_effects(
        &mut connections,
        &IoCoreEffects { quarantine: vec![], drained: vec![token] },
    );
    assert_eq!(connections.admission_snapshot().quarantined_bundles, 0);
    assert_eq!(connections.admission_snapshot().registered_live_qps, 0);
    assert_eq!(connections.phase(token), Some(ConnectionPhase::Retiring));
    assert_eq!(connections.pop_retirement(), Some(token));
    assert!(matches!(
        connections.connection(token).unwrap().close.outcome().unwrap().into_result(),
        Err(Error::ConnectionQuarantined { outstanding_operations: 1, cq_debt: 1 })
    ));
}

#[test]
fn registered_operation_is_retained_when_qp_destruction_fails() {
    let (mut connections, token) = closing(23, 1);
    let mut actions = ReactorActions::new();
    let DrainStep::DestroyQp { operations, accepted } =
        handle_connection_drain_deadline_into(&mut connections, token, false, GRACE, &actions)
    else {
        panic!("accepted work is reclaimed over a destroyed queue pair");
    };
    let busy = Error::Verbs(IoError::other("busy".into()));
    let step = drain_qp_destroyed(&mut connections, token, operations, accepted, Err(busy), &actions);
    assert!(matches!(step, DrainStep::BeginQuarantine));
    let report = IoQuarantineReport { outstanding_operations: 1, cq_debt: 1 };
    let step = drain_quarantine_begun(&mut connections, token, Some(report), &mut actions);
    assert!(matches!(step, DrainStep::ScanQuarantine { slot: 0, settle: true, .. }));
    connections.track_operation_quarantine(token, operation(0));
    drain_quarantine_scanned(&mut connections, token, 1, true, true, GRACE);
    let connection = connections.connection(token).unwrap();
    assert!(matches!(
        connection.close.outcome().unwrap().into_result(),
        Err(Error::ConnectionQuarantined { outstanding_operations: 1, cq_debt: 1 })
    ));
    assert!(!connection.qp_destroyed);
    assert_eq!(connection.io_ledger.quarantined_operation_count(), 1);
    assert_eq!(connections.accepted_count(token), 1);
    assert!(connections.is_quarantined(token));
    assert_eq!(connections.admission_snapshot().quarantined_bundles, 1);
}

#[test]
fn anomalous_token_does_not_strand_reclaimable_operations_after_qp_destroy() {
    let (mut connections, token) = closing(24, 2);
    let anomalous = OperationToken { slot: u32::MAX, generation: 1 };
    connections.connection_mut(token).unwrap().io_ledger.add_accepted(anomalous);
    let mut actions = ReactorActions::new();
    for _ in 0..28 {
        actions.push(Action::Operation);
    }
    let DrainStep::DestroyQp { operations, accepted } =
        handle_connection_drain_deadline_into(&mut connections, token, false, GRACE, &actions)
    else {
        panic!("accepted work is reclaimed over a destroyed queue pair");
    };
    assert_eq!((operations.len(), accepted), (2, 3));
    let DrainStep::Measure { evidence, operations, accepted, .. } =
        drain_qp_destroyed(&mut connections, token, operations, accepted, Ok(true), &actions)
    else {
        panic!("a destroyed queue pair is evidence");
    };
    for reclaimed in &operations {
        let ledger = &mut connections.connection_mut(token).unwrap().io_ledger;
        assert!(ledger.remove_accepted(*reclaimed));
    }
    let step = drain_reclaimed(
        &mut connections,
        token,
        evidence,
        operations.len(),
        accepted,
        2,
        GRACE,
        &actions,
    );
    assert!(matches!(step, DrainStep::Done));
    assert!(connections.connection(token).unwrap().qp_reclamation_proof.is_some());
    let again = ReactorActions::new();
    let DrainStep::Measure { evidence, operations, accepted, .. } =
        handle_connection_drain_deadline_into(&mut connections, token, false, GRACE, &again)
    else {
        panic!("the kept evidence is used");
    };
    assert_eq!(operations, vec![anomalous]);
    let step = drain_reclaimed(&mut connections, token, evidence, 1, accepted, 1, GRACE, &again);
    assert!(matches!(step, DrainStep::RejectQueued { .. }));
    let mut ended = ReactorActions::new();
    assert!(matches!(
        drain_rejected(&mut connections, token, false, GRACE),
        DrainStep::BeginQuarantine
    ));
    let report = IoQuarantineReport { outstanding_operations: 1, cq_debt: 1 };
    drain_quarantine_begun(&mut connections, token, Some(report), &mut ended);
    drain_quarantine_scanned(&mut connections, token, 1, true, true, GRACE);
    assert_eq!(connections.connection(token).unwrap().io_ledger.accepted, vec![anomalous]);
    assert_eq!(connections.admission_snapshot().quarantined_bundles, 1);
}

#[test]
fn evidence_without_room_is_kept() {
    let (mut connections, token) = closing(25, 1);
    let actions = ReactorActions::new();
    let DrainStep::DestroyQp { operations, accepted } =
        handle_connection_drain_deadline_into(&mut connections, token, false, 9, &actions)
    else {
        panic!("accepted work is reclaimed over a destroyed queue pair");
    };
    let DrainStep::Measure { evidence, operations, accepted, .. } =
        drain_qp_destroyed(&mut connections, token, operations, accepted, Ok(true), &actions)
    else {
        panic!("a destroyed queue pair is evidence");
    };
    let step = drain_measured(&mut connections, token, evidence, operations, accepted, 0, 9);
    assert!(matches!(step, DrainStep::Done));
    assert_eq!(connections.take_deadline_requests(1)[0].at, 9);
    let evidence = connections.connection_mut(token).unwrap().take_qp_reclamation_proof();
    assert_eq!(evidence.unwrap().connection(), token);
}

#[test]
fn copied_completions_take_their_turn_first() {
    let (mut connections, token) = closing(26, 1);
    connections.connection_mut(token).unwrap().io_ledger.completion_work = true;
    let actions = ReactorActions::new();
    let step = handle_connection_drain_deadline_into(&mut connections, token, false, 3, &actions);
    assert!(matches!(step, DrainStep::PublishConnection));
    assert_eq!(connections.take_deadline_requests(1)[0].at, 3);
}

#[test]
fn a_drained_connection_settles() {
    let (mut connections, token) = closing(27, 0);
    assert_eq!(connections.phase(token), Some(ConnectionPhase::Retiring));
    let mut actions = ReactorActions::new();
    let step = handle_connection_drain_deadline_into(&mut connections, token, false, 3, &actions);
    assert!(matches!(step, DrainStep::BeginQuarantine));
    let step = drain_quarantine_begun(&mut connections, token, None, &mut actions);
    assert!(matches!(step, DrainStep::Done));
    assert_eq!(connections.retirement_count(), 1);
    assert!(actions.queue.is_empty());
}

#[test]
fn operation_reports_mark_and_clear() {
    let (mut connections, token) = installed(29, 2);
    let report = |effect| IoCoreEffects { quarantine: vec![effect], drained: vec![] };
    apply_io_effects(
        &mut connections,
        &report(OperationQuarantineEffect::Added { connection: token, operation: operation(0) }),
    );
    assert!(connections.is_quarantined(token));
    apply_io_effects(
        &mut connections,
        &report(OperationQuarantineEffect::Cleared { connection: token, operation: operation(1) }),
    );
    assert!(connections.is_quarantined(token));
    apply_io_effects(
        &mut connections,
        &report(OperationQuarantineEffect::Cleared { connection: token, operation: operation(0) }),
    );
    assert!(!connections.is_quarantined(token));
    apply_io_effects(
        &mut connections,
        &IoCoreEffects { quarantine: vec![], drained: vec![token] },
    );
    assert_eq!(connections.retirement_count(), 0);
}
