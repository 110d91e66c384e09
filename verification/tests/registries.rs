use std::sync::Arc;

use rdma_session::actions::ReactorActions;
use rdma_session::admission::{
    ConnectionReservation, ConnectionStateCountSnapshot, ReservationState,
};
use rdma_session::connection::{CmId, ConnectionPoster, ConnectionState};
use rdma_session::error::Error;
use rdma_session::registry::{ConnectionPhase, ConnectionRegistry, DeadlineKind};
use rdma_session::routes::{
    ConnectionCmRoute, ConnectionRouteDirection, InboundRoute, InboundState,
};
use rdma_session::slots::{Lookup, SlotRegistry};
use rdma_session::token::{ConnectionToken, ListenerToken, OperationToken, SlotToken};
use tokio::sync::Semaphore;

fn outbound_registry() -> (ConnectionRegistry, ConnectionToken) {
    let mut registry = ConnectionRegistry::new(1);
    let reservation = registry.try_reserve().unwrap();
    let token = registry.register_outbound().unwrap();
    assert!(registry.set_route_identity(token, 11, 17));
    let poster = ConnectionPoster::Synthetic { qp_num: 41, capabilities: None };
    let connection = ConnectionState::new(token, poster, None, None, Some(reservation));
    registry.attach_registered(token, connection).ok().expect("attach exact QP owner");
    (registry, token)
}

fn admission(registry: &ConnectionRegistry, token: ConnectionToken) -> ReservationState {
    registry.connection(token).unwrap().admission.as_ref().unwrap().state()
}

#[test]
fn lifecycle_bundle_transitions_atomically_across_all_connection_facts() {
    let (mut registry, token) = outbound_registry();
    assert_eq!(registry.phase(token), Some(ConnectionPhase::Outbound));
    assert!(matches!(
        registry.lookup_outbound(token),
        Lookup::Occupied(route) if route.raw_id == 11 && route.context_key == 17
            && route.direction == ConnectionRouteDirection::Outbound
    ));
    assert_eq!(admission(&registry, token), ReservationState::Established);
    let active = registry.connection(token).unwrap();
    assert_eq!(active.qp_num, 41);
    assert_eq!(active.identity().session_token(), token);
    assert_eq!(active.identity().qp_num(), 41);
    assert_eq!(active.io_ledger.accepted_count(), 0);
    assert!(active.close_result.is_none());
    assert!(!active.drained_recorded);
    assert_eq!(registry.lookup_qp(41), Some(token));
    assert!(!registry.is_quarantined(token));

    assert!(registry.mark_active(token));
    let operation = OperationToken { slot: 7, generation: 3 };
    registry.connection_mut(token).unwrap().io_ledger.add_accepted(operation);
    assert!(registry.begin_close(token));
    assert!(registry.mark_drained_once(token));
    let connection = registry.connection_mut(token).unwrap();
    connection.record_cm_failure(Error::TransportClosed);
    connection.transition_to_error_once(Ok(())).unwrap();
    assert!(registry.request_retirement(token));
    assert!(registry.begin_retirement(token));
    assert!(registry.track_operation_quarantine(token, operation));
    assert!(registry.track_bundle_quarantine(token));

    assert_eq!(registry.phase(token), Some(ConnectionPhase::Quarantined));
    assert_eq!(
        registry.connection_route(token),
        Some(ConnectionCmRoute::Outbound(token.encode()))
    );
    assert_eq!(registry.lookup_qp(41), Some(token));
    assert_eq!(registry.accepted_count(token), 1);
    let quarantined = registry.connection(token).unwrap();
    assert!(quarantined.close_result.is_some());
    assert!(quarantined.drained_recorded);
    assert_eq!(quarantined.poster.qp_num(), 41);
    assert_eq!(quarantined.io_ledger.quarantined_operation_count(), 1);
    assert!(registry.retirement_is_quarantined(token));
    assert_eq!(admission(&registry, token), ReservationState::QuarantinedDraining);

    assert!(
        !registry.clear_operation_quarantine(token, operation),
        "bundle quarantine keeps the full entry quarantined"
    );
    assert!(registry.clear_bundle_quarantine(token));
    assert_eq!(registry.phase(token), Some(ConnectionPhase::Retiring));
    assert_eq!(registry.accepted_count(token), 1);
    assert!(registry.connection(token).unwrap().drained_recorded);
    assert_eq!(registry.connection(token).unwrap().poster.qp_num(), 41);
    assert_eq!(admission(&registry, token), ReservationState::Draining);
}

#[test]
fn invalid_independent_transitions_are_rejected_without_partial_mutation() {
    let (mut registry, token) = outbound_registry();
    let phase = registry.phase(token);
    let route = registry.connection_route(token);
    let state = admission(&registry, token);
    let owner = registry.lookup_qp(41);

    assert!(!registry.request_retirement(token));
    assert!(!registry.begin_retirement(token));
    assert!(!registry.clear_bundle_quarantine(token));
    let other = ConnectionToken { slot: token.slot, generation: token.generation + 1 };
    let mut actions = ReactorActions::new();
    assert!(!registry.quarantine_and_publish(other, &Error::TransportClosed, &mut actions));
    assert!(actions.queue.is_empty());

    assert_eq!(registry.phase(token), phase);
    assert_eq!(registry.connection_route(token), route);
    assert_eq!(admission(&registry, token), state);
    assert_eq!(registry.connection(token).unwrap().qp_num, 41);
    assert_eq!(registry.lookup_qp(41), owner);
    assert_eq!(registry.accepted_count(token), 0);
    assert!(!registry.is_quarantined(token));
}

#[test]
fn exact_qp_index_and_live_proof_cannot_outlive_the_entry() {
    let (mut registry, token) = outbound_registry();
    assert!(registry.prove_live_io(token, 41).is_some());
    assert!(registry.mark_active(token));
    assert!(registry.begin_close(token));
    registry.connection_mut(token).unwrap().transition_to_error_once(Ok(())).unwrap();
    assert!(registry.request_retirement(token));
    assert!(registry.begin_retirement(token));
    let released = registry.release(token, 41).expect("exact release");
    assert_eq!(released.token, token);
    assert_eq!(released.io_ledger.accepted_count(), 0);
    assert!(registry.lookup_qp(41).is_none());
    assert!(registry.prove_live_io(token, 41).is_none());
    assert!(matches!(registry.lookup(token), Lookup::Duplicate));
}

#[test]
fn route_direction_is_part_of_the_entry_not_a_parallel_owner() {
    let (registry, token) = outbound_registry();
    assert!(matches!(
        registry.lookup_outbound(token),
        Lookup::Occupied(route) if route.direction == ConnectionRouteDirection::Outbound
            && route.raw_id == 11 && route.context_key == 17
    ));
    assert!(matches!(registry.lookup_inbound(token), Lookup::Unknown));
}

#[test]
fn reactor_owns_registry_admission_and_deadline_inbox() {
    let mut connections = ConnectionRegistry::new(16);

    assert_eq!(connections.live(), 0);
    assert_eq!(connections.admission_snapshot().live, 0);
    assert_eq!(connections.deadline_request_count(), 0);

    connections.schedule_deadline(DeadlineKind::ConnectionDrain, 7, 0, 100);
    let requests = connections.take_deadline_requests(1);
    assert_eq!(requests.len(), 1);
    assert_eq!(requests[0].kind, DeadlineKind::ConnectionDrain);
    assert_eq!(requests[0].token, 7);
    assert_eq!(requests[0].at, 100);
    assert_eq!(connections.deadline_request_count(), 0);
}

#[test]
fn deadlines_past_the_end_of_the_clock_are_due_now() {
    let mut connections = ConnectionRegistry::new(1);
    connections.schedule_deadline(DeadlineKind::EngineShutdown, 0, u64::MAX, 5);
    assert_eq!(connections.take_deadline_requests(4)[0].at, 5);
}

#[test]
fn reservations_follow_the_permits() {
    let connections = ConnectionRegistry::new(2);
    let first = connections.try_reserve().unwrap();
    assert_eq!(connections.admission_snapshot().live, 1);
    let second = connections.try_reserve().unwrap();
    assert!(connections.try_reserve().is_none());
    drop(first);
    assert_eq!(connections.admission_snapshot().live, 1);
    drop(second);
    assert_eq!(connections.admission_snapshot().live, 0);
}

#[test]
fn quarantine_and_clearing_give_the_entry_back() {
    let (mut registry, token) = outbound_registry();
    assert!(registry.mark_active(token));
    assert!(registry.track_bundle_quarantine(token));
    assert_eq!(admission(&registry, token), ReservationState::QuarantinedEstablished);
    assert!(!registry.track_bundle_quarantine(token));
    assert!(registry.clear_bundle_quarantine(token));
    assert_eq!(admission(&registry, token), ReservationState::Established);
    assert_eq!(registry.phase(token), Some(ConnectionPhase::Active));
    assert!(!registry.clear_bundle_quarantine(token));
}

#[test]
fn a_route_registers_one_queue_pair() {
    let (mut registry, token) = outbound_registry();
    let second = ConnectionState::new(
        token,
        ConnectionPoster::Synthetic { qp_num: 42, capabilities: None },
        None,
        None,
        None,
    );
    let (error, _) = registry.attach_registered(token, second).err().unwrap();
    assert!(matches!(
        error,
        Error::InvalidConfig(message)
            if message == "connection route registered more than one QP owner"
    ));
    assert!(matches!(
        registry.validate_qp_registration(41),
        Err(Error::InvalidConfig(message)) if message == "qp_num 41 is already registered"
    ));
}

#[test]
fn slot_tokens_are_not_issued_twice() {
    let mut slots: SlotRegistry<u8> = SlotRegistry::new(1);
    let first = slots.allocate(1).unwrap();
    assert_eq!(slots.allocate(2), Err(2));
    assert_eq!(slots.release(first, true), Some(1));
    assert!(matches!(slots.lookup_ref(first), Lookup::Duplicate));
    let second = slots.allocate(3).unwrap();
    assert_ne!(first, second);
    assert_eq!(SlotToken::decode(second.encode()), second);
    assert!(matches!(slots.lookup_ref(first), Lookup::Duplicate | Lookup::Stale));
    assert!(matches!(slots.lookup_ref(SlotToken { slot: 5, generation: 1 }), Lookup::Unknown));
}

#[test]
fn a_permit_makes_a_reservation_and_its_absence_none() {
    let permits = Arc::new(Semaphore::new(1));
    let permit = Arc::clone(&permits).try_acquire_owned().ok();
    let reservation = ConnectionReservation::from_permit(permit).unwrap();
    assert_eq!(reservation.state(), ReservationState::Establishing);
    assert!(!reservation.qp_counted);
    assert_eq!(permits.available_permits(), 0);
    let refused = Arc::clone(&permits).try_acquire_owned().ok();
    assert!(ConnectionReservation::from_permit(refused).is_none());
    drop(reservation);
    assert_eq!(permits.available_permits(), 1);
}

#[test]
fn diagnostics_remain_constant_time_after_registry_high_water() {
    let mut registry = ConnectionRegistry::new(2_048);
    for slot in 0..1_025_u32 {
        let token = registry.register_outbound().unwrap();
        assert_eq!(token.slot, slot);
    }
    assert_eq!(registry.live(), 1_025);
    assert_eq!(registry.admission_snapshot(), ConnectionStateCountSnapshot::default());
    for _ in 0..1_000_000 {
        assert_eq!(
            registry.count_bundles(2_048),
            ConnectionStateCountSnapshot::default(),
            "ordinary diagnostics must not enumerate the registry high-water range"
        );
    }
}

#[test]
fn counts_follow_every_change_of_a_bundle() {
    let counts = |establishing, established, draining, registered_live_qps, quarantined_bundles| {
        ConnectionStateCountSnapshot {
            live: 0,
            establishing,
            established,
            draining,
            registered_live_qps,
            quarantined_bundles,
        }
    };
    let (mut registry, token) = outbound_registry();
    assert_eq!(registry.count_bundles(1), counts(0, 1, 0, 1, 0));
    assert!(registry.mark_active(token));
    assert!(registry.track_bundle_quarantine(token));
    assert_eq!(registry.count_bundles(1), counts(0, 0, 0, 0, 1));
    assert!(registry.clear_bundle_quarantine(token));
    assert!(registry.begin_close(token));
    assert_eq!(registry.count_bundles(1), counts(0, 0, 1, 1, 0));
    assert!(registry.track_bundle_quarantine(token));
    assert_eq!(registry.count_bundles(1), counts(0, 0, 1, 0, 1));
    assert!(registry.clear_bundle_quarantine(token));
    assert!(registry.establish_qp_destruction_proof(token, Ok(true)).is_ok());
    assert_eq!(registry.count_bundles(1), counts(0, 0, 1, 0, 0));
    assert!(registry.release_unindexed(token).is_some());
    assert_eq!(registry.count_bundles(1), counts(0, 0, 0, 0, 0));

    let mut registry = ConnectionRegistry::new(1);
    let reservation = registry.try_reserve().unwrap();
    let listener = ListenerToken { slot: 0, generation: 1 };
    let cm_id = CmId { raw_id: 5, context_key: 6, context_token: None };
    let mut route = InboundRoute::new(listener);
    route.state = InboundState::PendingSelection { cm_id, reservation };
    let token = registry.register_inbound(route).ok().unwrap();
    assert_eq!(registry.count_bundles(1), counts(1, 0, 0, 0, 0));
    let state = registry.take_inbound_state(token);
    assert_eq!(registry.count_bundles(1), counts(0, 0, 0, 0, 0));
    assert!(registry.set_inbound_state(token, state));
    assert_eq!(registry.count_bundles(1), counts(1, 0, 0, 0, 0));
    assert!(registry.release_route(token, true));
    assert_eq!(registry.count_bundles(1), counts(0, 0, 0, 0, 0));
}

#[test]
fn a_bundle_that_drains_in_quarantine_counts_twice() {
    let permits = Arc::new(Semaphore::new(1));
    let permit = Arc::clone(&permits).try_acquire_owned().unwrap();
    let mut reservation = ConnectionReservation::new(permit);
    let mut counts = ConnectionStateCountSnapshot::default();
    reservation.contribute(&mut counts);
    assert_eq!((counts.establishing, counts.registered_live_qps), (1, 0));
    reservation.mark_registered();
    reservation.contribute(&mut counts);
    assert_eq!((counts.established, counts.registered_live_qps), (1, 1));
    reservation.mark_draining();
    reservation.mark_quarantined();
    reservation.contribute(&mut counts);
    assert_eq!((counts.draining, counts.quarantined_bundles), (1, 1));
    assert_eq!((counts.establishing, counts.established, counts.registered_live_qps), (1, 1, 1));
}

#[test]
fn a_registry_admits_by_the_semaphore_it_shares() {
    let permits = Arc::new(Semaphore::new(1));
    let first = ConnectionRegistry::new_with_admission(4, Arc::clone(&permits));
    let second = ConnectionRegistry::new_with_admission(4, Arc::clone(&permits));
    let held = first.try_reserve().unwrap();
    assert!(Arc::ptr_eq(held.permit.semaphore(), &permits));
    assert!(second.try_reserve().is_none());
    drop(held);
    assert!(second.try_reserve().is_some());
    assert_eq!(ConnectionRegistry::new(3).admission_snapshot().live, 0);
}
