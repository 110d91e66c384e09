use rdma_session::actions::ReactorActions;
use rdma_session::cm::{CmSoftwareClass, CmState, ContextRoute, PendingCmDestruction};
use rdma_session::config::RdmaConnectionConfig;
use rdma_session::connection::CmId;
use rdma_session::error::{Error, IoError, IoErrorKind};
use rdma_session::event::{
    is_failure_event, lookup_dispatch_route, lookup_event_route, record_cm_reject, CmDispatchRoute,
    CmEventReject, CmEventSnapshot, CmEventType,
};
use rdma_session::listen::handle_listener_event;
use rdma_session::listener::RdmaListenerConfig;
use rdma_session::registry::{ConnectionPhase, ConnectionRegistry};
use rdma_session::requests::{empty_connection_setup, AcceptRequest, OutboundRequest};
use rdma_session::retirement::{
    complete_destruction, destruction_probed, next_destruction, Destroyed,
};
use rdma_session::routes::{ConnectionRouteDirection, InboundRoute};
use rdma_session::slots::{Lookup, SlotRegistry};
use rdma_session::token::ListenerToken;

fn snapshot(context_key: u64, id: u64) -> CmEventSnapshot {
    CmEventSnapshot {
        event_type: CmEventType::AddrResolved,
        status: 0,
        id,
        listen_id: 0,
        context_key,
    }
}

#[test]
fn outbound_context_route_resolves_only_the_exact_generation_and_raw_id() {
    let mut cm = CmState::new(2);
    let mut connections = ConnectionRegistry::new(2);
    let token = connections.register_outbound().unwrap();
    assert!(connections.set_route_identity(token, 11, 17));
    assert!(cm.insert_context_route(17, ContextRoute::Outbound { token, raw_id: 11 }));

    assert!(matches!(
        lookup_event_route(&cm, &connections, snapshot(17, 11)),
        Ok(found) if found.token == token && found.raw_id == 11
    ));
    assert!(matches!(
        lookup_event_route(&cm, &connections, snapshot(17, 12)),
        Err(CmEventReject::WrongId)
    ));

    assert!(connections.release_route(token, true));
    assert!(matches!(
        lookup_event_route(&cm, &connections, snapshot(17, 11)),
        Err(CmEventReject::Duplicate | CmEventReject::Stale)
    ));
}

#[test]
fn inbound_and_outbound_routes_share_one_connection_generation_space() {
    let mut connections = ConnectionRegistry::new(1);
    let outbound = connections.register_outbound().unwrap();
    assert_eq!(connections.phase(outbound), Some(ConnectionPhase::Outbound));
    assert!(connections.release_route(outbound, true));

    let listener = ListenerToken { slot: 0, generation: 1 };
    let inbound = connections.register_inbound(InboundRoute::new(listener)).ok().unwrap();
    assert!(connections.set_route_identity(inbound, 23, 29));
    assert_eq!(inbound.slot, outbound.slot);
    assert_eq!(inbound.generation, outbound.generation + 1);
    assert_eq!(connections.phase(inbound), Some(ConnectionPhase::Inbound));
    assert!(matches!(
        connections.lookup_inbound(inbound),
        Lookup::Occupied(route)
            if route.raw_id == 23
                && route.context_key == 29
                && route.direction == ConnectionRouteDirection::Inbound
    ));
    assert!(matches!(connections.lookup_outbound(inbound), Lookup::Unknown));
}

fn activate(cm: &mut CmState, listener: ListenerToken, address: &str, raw_id: u64, key: u64) -> bool {
    let cm_id = CmId { raw_id, context_key: key, context_token: Some(listener.encode()) };
    cm.activate_listener_identity(listener, address.into(), cm_id, raw_id, key).is_ok()
}

#[test]
fn listener_identity_remains_in_the_single_context_index() {
    let mut cm = CmState::new(3);
    let listener = cm
        .listeners
        .reserve("127.0.0.1:1".into(), RdmaListenerConfig::default().backlog(9))
        .unwrap();
    assert!(activate(&mut cm, listener, "127.0.0.1:1", 33, 44));
    let duplicate_raw =
        cm.listeners.reserve("127.0.0.1:2".into(), RdmaListenerConfig::default()).unwrap();
    assert!(!activate(&mut cm, duplicate_raw, "127.0.0.1:2", 33, 45));
    assert!(!cm.context_routes.contains_key(&45));
    let duplicate_context =
        cm.listeners.reserve("127.0.0.1:3".into(), RdmaListenerConfig::default()).unwrap();
    assert!(!activate(&mut cm, duplicate_context, "127.0.0.1:3", 34, 44));
    assert_eq!(cm.listeners.token_for_raw(34), None);

    let event = |id: u64| CmEventSnapshot {
        event_type: CmEventType::Established,
        status: 0,
        id,
        listen_id: 0,
        context_key: 44,
    };
    let connections = ConnectionRegistry::new(1);
    let route = lookup_dispatch_route(&cm, &connections, event(33));
    assert!(matches!(
        route,
        Ok(CmDispatchRoute::Listener(found)) if found == listener
    ));
    assert!(matches!(
        lookup_dispatch_route(&cm, &connections, event(34)),
        Err(CmEventReject::WrongId)
    ));
    cm.listeners.release(listener, true);
    assert!(matches!(
        lookup_dispatch_route(
            &cm,
            &connections,
            CmEventSnapshot {
                event_type: CmEventType::ConnectRequest,
                status: 0,
                id: 77,
                listen_id: 33,
                context_key: 0,
            },
        ),
        Err(CmEventReject::Unknown)
    ));
    assert!(matches!(
        lookup_dispatch_route(&cm, &connections, event(33)),
        Err(CmEventReject::Duplicate | CmEventReject::Stale)
    ));
}

/// Serves deferred destructions with `probe` for an event channel; says how many were
/// served, and counts the identifiers that were destroyed.
fn service_destructions(
    cm: &mut CmState,
    connections: &mut ConnectionRegistry,
    budget: usize,
    probe: &mut dyn FnMut() -> Result<bool, Error>,
    destroyed: &mut (usize, usize),
) -> Result<usize, Error> {
    let mut requests: SlotRegistry<AcceptRequest> = SlotRegistry::new(1);
    let mut actions = ReactorActions::new();
    let mut processed = 0;
    while let Some(pending) = next_destruction(cm, processed, budget) {
        if let Some(pending) = destruction_probed(cm, pending, probe())? {
            match complete_destruction(cm, connections, &mut requests, pending, Ok(()), &mut actions)? {
                Destroyed::Route => destroyed.0 += 1,
                Destroyed::Listener(_) => destroyed.1 += 1,
                Destroyed::Connection(_) => {}
            }
        }
        processed += 1;
    }
    Ok(processed)
}

#[test]
fn listener_and_route_destructions_share_one_would_block_service() {
    let mut cm = CmState::new(1);
    let mut connections = ConnectionRegistry::new(1);
    let token = cm
        .listeners
        .reserve("127.0.0.1:1".into(), RdmaListenerConfig::default().backlog(1))
        .unwrap();
    cm.defer_cm_id(CmId { raw_id: 1, context_key: 2, context_token: None });
    cm.defer_listener_cm_id(token, CmId { raw_id: 3, context_key: 4, context_token: None });

    let mut destroyed = (0, 0);
    let mut first_probe = true;
    assert_eq!(
        service_destructions(
            &mut cm,
            &mut connections,
            1,
            &mut || {
                let observed = first_probe;
                first_probe = false;
                Ok(observed)
            },
            &mut destroyed,
        )
        .unwrap(),
        1
    );
    assert_eq!(destroyed, (0, 0));
    assert_eq!(cm.destruction_work_count(), 2);

    assert_eq!(
        service_destructions(&mut cm, &mut connections, 2, &mut || Ok(false), &mut destroyed)
            .unwrap(),
        2
    );
    assert_eq!(destroyed, (1, 1));
    assert_eq!(cm.listener_count(), 0);
}

#[test]
fn a_failed_probe_leaves_the_oldest_destruction_first() {
    let mut cm = CmState::new(1);
    let mut connections = ConnectionRegistry::new(1);
    cm.defer_cm_id(CmId { raw_id: 1, context_key: 2, context_token: None });
    cm.defer_cm_id(CmId { raw_id: 5, context_key: 6, context_token: None });
    let mut destroyed = (0, 0);
    let failed = service_destructions(
        &mut cm,
        &mut connections,
        2,
        &mut || Err(Error::WouldBlock),
        &mut destroyed,
    );
    assert!(matches!(failed, Err(Error::WouldBlock)));
    assert!(matches!(
        cm.cm_destructions.front(),
        Some(PendingCmDestruction::Route(cm_id)) if cm_id.raw_id == 1
    ));
    assert_eq!(cm.destruction_work_count(), 2);
}

#[test]
fn a_listener_whose_identifier_stays_reports_it() {
    let mut cm = CmState::new(1);
    let mut connections = ConnectionRegistry::new(1);
    let mut requests: SlotRegistry<AcceptRequest> = SlotRegistry::new(1);
    let mut actions = ReactorActions::new();
    let token = cm
        .listeners
        .reserve("127.0.0.1:1".into(), RdmaListenerConfig::default().backlog(1))
        .unwrap();
    let pending = PendingCmDestruction::Listener {
        cm_id: CmId { raw_id: 3, context_key: 4, context_token: None },
        listener: token,
    };
    let busy = Error::Verbs(IoError::new(IoErrorKind::Interrupted, "busy".into()));
    let error = complete_destruction(
        &mut cm,
        &mut connections,
        &mut requests,
        pending,
        Err(busy),
        &mut actions,
    )
    .err()
    .unwrap();
    assert!(matches!(
        &error,
        Error::Verbs(io) if io.kind == IoErrorKind::Interrupted
            && io.message == "destroy listener CM ID for 127.0.0.1:1: busy"
    ));
    assert_eq!(cm.listener_count(), 1);
    assert!(matches!(
        cm.listeners.get(token).unwrap().close.outcome().unwrap().into_result(),
        Err(Error::Verbs(_))
    ));
    assert_eq!(actions.queue.len(), 1);
}

#[test]
fn software_snapshot_reads_connection_work_from_the_reactor_registry() {
    let cm = CmState::new(1);
    let mut connections = ConnectionRegistry::new(1);
    let mut connects: SlotRegistry<OutboundRequest> = SlotRegistry::new(1);
    let request = connects
        .allocate(OutboundRequest::new(
            "127.0.0.1:7471".into(),
            RdmaConnectionConfig::default(),
            empty_connection_setup(),
        ))
        .ok()
        .unwrap();
    let reservation = connections.try_reserve().unwrap();
    connections.enqueue_outbound(request, reservation);
    let snapshot = cm.software_snapshot(&connections);
    assert_eq!(snapshot.count(CmSoftwareClass::OutboundStart), 1);

    let (request, _reservation) = connections.pop_outbound().unwrap();
    connections.enqueue_cancellation(request);
    let snapshot = cm.software_snapshot(&connections);
    assert_eq!(snapshot.count(CmSoftwareClass::Cancellation), 1);
    assert_eq!(snapshot.count(CmSoftwareClass::OutboundStart), 0);
}

#[test]
fn duplicates_are_no_anomaly() {
    let mut rejected: u64 = 0;
    record_cm_reject(&mut rejected, CmEventReject::Duplicate);
    assert_eq!(rejected, 0);
    record_cm_reject(&mut rejected, CmEventReject::WrongId);
    assert_eq!(rejected, 1);
    assert!(is_failure_event(CmEventType::AddrChange));
    assert!(!is_failure_event(CmEventType::TimewaitExit));
}

#[test]
fn listener_failures_are_named() {
    let mut cm = CmState::new(1);
    let token = cm
        .listeners
        .reserve("127.0.0.1:1".into(), RdmaListenerConfig::default())
        .unwrap();
    let removal = CmEventSnapshot {
        event_type: CmEventType::DeviceRemoval,
        status: -19,
        id: 255,
        listen_id: 0,
        context_key: 0,
    };
    assert!(matches!(
        handle_listener_event(&mut cm, token, removal),
        Err(Error::Verbs(io)) if io.kind == IoErrorKind::NotConnected
            && io.message == "listener 127.0.0.1:1 RDMA CM DeviceRemoval failed with status -19 for id=0xff"
    ));
    assert!(!cm.listeners.get(token).unwrap().is_closing());
    let failed = CmEventSnapshot { event_type: CmEventType::ConnectError, ..removal };
    assert!(handle_listener_event(&mut cm, token, failed).is_ok());
    assert!(cm.listeners.get(token).unwrap().is_closing());
    assert_eq!(cm.listener_work_count(), 1);
}
