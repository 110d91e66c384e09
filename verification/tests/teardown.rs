use rdma_session::accept::{fail_selected_connection, service_listener, ListenerStep, SelectedStep};
use rdma_session::actions::{Action, IoTerminalEvent, ReactorActions};
use rdma_session::cm::CmState;
use rdma_session::config::RdmaConnectionConfig;
use rdma_session::connection::{CmId, ConnectionPoster, ConnectionState, VerbsConnectionResources};
use rdma_session::config::QpCapabilities;
use rdma_session::drain::{
    begin_connection_close_into, close_scanned, close_transitioned, CloseStep,
};
use rdma_session::error::{Error, IoError, IoErrorKind};
use rdma_session::event::{CmEventReject, CmEventSnapshot, CmEventType, EventDisposition};
use rdma_session::inbound::{
    self, acknowledge_accept_delivery, cancel_inbound_route, InboundStep,
};
use rdma_session::install::install_reserved_connection;
use rdma_session::listener::{IncomingChild, ListenerAction, RdmaListenerConfig};
use rdma_session::outbound::{self, finish_failed_connect, OutboundStep};
use rdma_session::registry::{ConnectionPhase, ConnectionRegistry};
use rdma_session::requests::{
    empty_connection_setup, AcceptIntent, AcceptRequest, OutboundRequest,
};
use rdma_session::retirement::{
    complete_destruction, destruction_probed, next_destruction, retire_after_qp_destroy,
    retire_registered_connection_into, retire_resources, Destroyed, RetireStep,
};
use rdma_session::routes::{
    EstablishedConnectionRoute, InboundRoute, InboundState, OutboundState,
};
use rdma_session::slots::{Lookup, SlotRegistry};
use rdma_session::token::{CmRouteToken, ConnectionToken, ListenerToken, OperationToken, RequestToken};

const GRACE: u64 = 5_000_000_000;

struct World {
    cm: CmState,
    connections: ConnectionRegistry,
    accepts: SlotRegistry<AcceptRequest>,
    connects: SlotRegistry<OutboundRequest>,
    actions: ReactorActions,
    steps: Vec<&'static str>,
    retired: Vec<ConnectionState>,
}

fn world() -> World {
    World {
        cm: CmState::new(4),
        connections: ConnectionRegistry::new(4),
        accepts: SlotRegistry::new(4),
        connects: SlotRegistry::new(4),
        actions: ReactorActions::new(),
        steps: Vec::new(),
        retired: Vec::new(),
    }
}

impl World {
    fn close(&mut self, token: ConnectionToken, moved: Result<(), Error>) -> Option<Error> {
        let mut step = begin_connection_close_into(
            &self.cm,
            &mut self.connections,
            &mut self.accepts,
            token,
            &mut self.actions,
        );
        loop {
            match step {
                CloseStep::Closed => return None,
                CloseStep::FailDriver(error) => return Some(error),
                CloseStep::Transition => {
                    if self.connections.connection(token).unwrap().needs_error_transition() {
                        self.steps.push("to_error");
                    }
                    step = close_transitioned(
                        &mut self.connections,
                        token,
                        moved.clone(),
                        false,
                        GRACE,
                        0,
                        &mut self.actions,
                    );
                }
                CloseStep::ScanObservers { .. } => {
                    close_scanned(&mut self.connections, token, 1, true, GRACE, 0);
                    return None;
                }
            }
        }
    }

    fn retire(&mut self, token: ConnectionToken, destroyed: Result<bool, Error>) {
        match retire_registered_connection_into(&mut self.connections, token) {
            RetireStep::DestroyQp => {}
            _ => return,
        }
        if self.connections.connection(token).unwrap().needs_qp_destroy() {
            self.steps.push("destroy_qp");
        }
        let step = retire_after_qp_destroy(
            &mut self.cm,
            &mut self.connections,
            &mut self.accepts,
            token,
            destroyed,
            &mut self.actions,
        )
        .unwrap();
        let RetireStep::DestroyResources { completion, reject } = step else {
            return;
        };
        let step = retire_resources(
            &mut self.cm,
            &mut self.connections,
            &mut self.accepts,
            token,
            completion,
            reject,
            Ok(false),
            &mut self.actions,
        )
        .unwrap();
        if let RetireStep::Finished(Some(connection)) = step {
            self.retired.push(connection);
        }
    }

    fn tear_down(&mut self, token: ConnectionToken) {
        assert!(self.close(token, Ok(())).is_none());
        self.retire(token, Ok(true));
    }
}

fn install_selected_route(
    world: &mut World,
    qp_num: u32,
) -> (ListenerToken, RequestToken, CmRouteToken) {
    let listener = world
        .cm
        .listeners
        .reserve("127.0.0.1:1".into(), RdmaListenerConfig::default().backlog(1))
        .unwrap();
    let permit = world.cm.listeners.get(listener).unwrap().admission.try_acquire().unwrap();
    let token = world.accepts.next_token().unwrap();
    let intent = AcceptIntent::new(RdmaConnectionConfig::default(), empty_connection_setup());
    let request =
        world.accepts.allocate(AcceptRequest::new(token, intent, permit)).ok().unwrap();
    let reservation =
        world.connections.try_reserve().expect("test connection admission is available");
    let route = world.connections.register_inbound(InboundRoute::new(listener)).ok().unwrap();
    install_reserved_connection(
        &mut world.connections,
        Some(route),
        ConnectionPoster::Synthetic { qp_num, capabilities: None },
        &RdmaConnectionConfig::default(),
        Ok(()),
        None,
        None,
        reservation,
    )
    .ok()
    .expect("test inbound connection installs");
    world.connections.connection_mut(route).unwrap().inbound_accept_succeeded = true;
    let entry = world.cm.listeners.get_mut(listener).unwrap();
    entry.register_waiter(request, &world.accepts).unwrap();
    assert!(entry.admit_child(IncomingChild::new(route), &world.accepts).is_none());
    assert!(matches!(
        entry.next_action(&mut world.accepts),
        ListenerAction::ProcessSelected { .. }
    ));
    entry.route_selected(request, route.encode()).unwrap();
    (listener, request, route)
}

fn assert_selected_route_released(world: &World, listener: ListenerToken, route: CmRouteToken) {
    assert!(!matches!(world.connections.lookup_inbound(route), Lookup::Occupied(_)));
    let entry = world.cm.listeners.get(listener).expect("test listener remains registered");
    assert!(!entry.selected_is_some());
    assert_eq!(entry.child_slots_used(), 0);
    assert_eq!(entry.admission.available_permits(), 1);
}

fn publish_success(world: &mut World, request: RequestToken, route: CmRouteToken) {
    assert!(world.connections.set_inbound_state(
        route,
        InboundState::EstablishedAwaitingDelivery {
            request,
            connection: EstablishedConnectionRoute::new(route),
        },
    ));
    assert!(world.connections.mark_active(route));
    let mut publication = ReactorActions::new();
    world.accepts.get_mut(request).unwrap().complete_success_into(route, &mut publication);
}

#[test]
fn cancellation_after_provider_accept_runs_ordered_close_immediately() {
    let mut world = world();
    let (listener, request, route) = install_selected_route(&mut world, 71);
    assert!(world.connections.set_inbound_state(
        route,
        InboundState::AwaitEstablished { request, connection: route },
    ));
    world.accepts.get_mut(request).unwrap().cancel();

    let closed = cancel_inbound_route(
        &mut world.cm,
        &mut world.connections,
        &mut world.accepts,
        route,
        &mut world.actions,
    )
    .unwrap();
    assert_eq!(closed, Some(route));
    world.tear_down(route);
    assert_eq!(world.steps, vec!["to_error", "destroy_qp"]);
    assert!(matches!(
        world.accepts.get_mut(request).unwrap().take_result(),
        Some(Err(Error::DriverShutdown))
    ));
    assert_selected_route_released(&world, listener, route);
}

#[test]
fn cancellation_after_accept_success_wake_runs_ordered_close_immediately() {
    let mut world = world();
    let (listener, request, route) = install_selected_route(&mut world, 72);
    publish_success(&mut world, request, route);
    world.accepts.get_mut(request).unwrap().cancel();
    assert!(world.accepts.get(request).unwrap().has_undelivered_success());

    let closed = cancel_inbound_route(
        &mut world.cm,
        &mut world.connections,
        &mut world.accepts,
        route,
        &mut world.actions,
    )
    .unwrap();
    assert_eq!(closed, Some(route));
    world.tear_down(route);
    assert_eq!(world.steps, vec!["to_error", "destroy_qp"]);
    assert!(matches!(
        world.accepts.get_mut(request).unwrap().take_result(),
        Some(Err(Error::DriverShutdown))
    ));
    assert_selected_route_released(&world, listener, route);
}

#[test]
fn listener_close_after_frontend_consumes_success_releases_selection() {
    let mut world = world();
    let (listener, request, route) = install_selected_route(&mut world, 73);
    publish_success(&mut world, request, route);
    world
        .accepts
        .get_mut(request)
        .unwrap()
        .take_result()
        .expect("published accept result exists")
        .expect("published accept succeeded");
    assert!(world.cm.listeners.get_mut(listener).unwrap().request_close());

    assert!(acknowledge_accept_delivery(
        &mut world.cm,
        &mut world.connections,
        &mut world.accepts,
        listener,
        request,
        route,
    ));
    {
        let entry = world.cm.listeners.get(listener).unwrap();
        assert!(!entry.selected_is_some());
        assert_eq!(entry.child_slots_used(), 0);
        assert_eq!(entry.admission.available_permits(), 1);
    }
    world.tear_down(route);
    assert_eq!(world.steps, vec!["to_error", "destroy_qp"]);
    assert_selected_route_released(&world, listener, route);
}

#[test]
fn frontend_close_after_delivery_arms_listener_wait_once() {
    let mut world = world();
    let (listener, request, route) = install_selected_route(&mut world, 75);
    publish_success(&mut world, request, route);
    world
        .accepts
        .get_mut(request)
        .unwrap()
        .take_result()
        .expect("published accept result exists")
        .expect("published accept succeeded");

    world.tear_down(route);
    let step = service_listener(
        &mut world.cm,
        &mut world.connections,
        &mut world.accepts,
        listener,
        false,
        false,
        &mut world.actions,
    )
    .unwrap();
    assert!(matches!(step, ListenerStep::Done));

    assert_eq!(world.steps, vec!["to_error", "destroy_qp"]);
    assert_selected_route_released(&world, listener, route);
    assert!(!world.cm.listeners.get(listener).unwrap().has_work(&world.accepts));
}

#[test]
fn accepted_setup_rollback_runs_ordered_close_without_reject_disposition() {
    let mut world = world();
    let (listener, request, route) = install_selected_route(&mut world, 74);
    let step = fail_selected_connection(
        &mut world.cm,
        &mut world.connections,
        &mut world.accepts,
        route,
        request,
        route,
        Error::TransportClosed,
        &mut world.actions,
    )
    .unwrap();
    assert!(matches!(step, SelectedStep::Teardown { connection } if connection == route));
    world.tear_down(route);

    assert_eq!(world.steps, vec!["to_error", "destroy_qp"]);
    assert!(matches!(
        world.accepts.get_mut(request).unwrap().take_result(),
        Some(Err(Error::TransportClosed))
    ));
    assert_selected_route_released(&world, listener, route);
}

fn install_outbound(world: &mut World, qp_num: u32) -> (RequestToken, CmRouteToken) {
    let request = world
        .connects
        .allocate(OutboundRequest::new(
            "127.0.0.1:7471".into(),
            RdmaConnectionConfig::default(),
            empty_connection_setup(),
        ))
        .ok()
        .unwrap();
    let reservation =
        world.connections.try_reserve().expect("test connection admission is available");
    let route = world.connections.register_outbound().unwrap();
    install_reserved_connection(
        &mut world.connections,
        Some(route),
        ConnectionPoster::Synthetic { qp_num, capabilities: None },
        &RdmaConnectionConfig::default(),
        Ok(()),
        None,
        None,
        reservation,
    )
    .ok()
    .unwrap();
    assert!(world.connections.set_outbound_state(
        route,
        OutboundState::AwaitEstablished { request, connection: route },
    ));
    (request, route)
}

#[test]
fn disconnect_before_outbound_establishment_resolves_the_connect_request() {
    let mut world = world();
    let (request, route) = install_outbound(&mut world, 81);

    let step = outbound::handle_disconnected(
        &mut world.connections,
        &world.connects,
        route,
        &mut world.actions,
    )
    .unwrap();
    let OutboundStep::Teardown { connection, failed: Some((waiting, error)) } = step else {
        panic!("an unestablished connect is torn down");
    };
    assert_eq!(connection, route);
    assert_eq!(waiting, request);
    world.tear_down(connection);
    finish_failed_connect(&mut world.connects, waiting, error, &mut world.actions);
    assert!(matches!(
        world.connects.get_mut(request).unwrap().take_result(),
        Some(Err(Error::Verbs(error)))
            if error.kind == IoErrorKind::ConnectionAborted
    ));
    assert!(!matches!(world.connections.lookup_outbound(route), Lookup::Occupied(_)));
    assert_eq!(world.steps, vec!["to_error", "destroy_qp"]);
}

#[test]
fn established_connects_are_delivered_and_disconnected() {
    let mut world = world();
    let (request, route) = install_outbound(&mut world, 82);
    let event = |event_type: CmEventType, status: i32| CmEventSnapshot {
        event_type,
        status,
        id: 11,
        listen_id: 0,
        context_key: 17,
    };
    let step = outbound::handle_event(
        &mut world.cm,
        &mut world.connections,
        &mut world.connects,
        route,
        event(CmEventType::Established, 0),
        false,
        &mut world.actions,
    )
    .unwrap();
    assert!(matches!(step, OutboundStep::Done(EventDisposition::Handled)));
    assert_eq!(world.connections.phase(route), Some(ConnectionPhase::Active));
    assert!(matches!(world.actions.queue[0], Action::WakeConnect { .. }));
    assert!(matches!(
        world.connects.get_mut(request).unwrap().take_result(),
        Some(Ok(connection)) if connection == route
    ));

    let again = outbound::handle_event(
        &mut world.cm,
        &mut world.connections,
        &mut world.connects,
        route,
        event(CmEventType::Established, 0),
        false,
        &mut world.actions,
    )
    .unwrap();
    assert!(matches!(
        again,
        OutboundStep::Done(EventDisposition::Rejected(CmEventReject::Duplicate))
    ));

    let failed = outbound::handle_event(
        &mut world.cm,
        &mut world.connections,
        &mut world.connects,
        route,
        event(CmEventType::Disconnected, 3),
        false,
        &mut world.actions,
    )
    .unwrap();
    assert!(matches!(failed, OutboundStep::Teardown { connection, failed: None } if connection == route));
    assert!(matches!(
        world.connections.connection(route).unwrap().operation_close_error(),
        Error::Verbs(io)
            if io.message == "RDMA CM Disconnected failed with status 3 for id=0xb listen_id=0x0"
    ));
    world.tear_down(route);
    assert_eq!(world.connections.live(), 0);
    assert!(matches!(
        world.retired[0].close.outcome().unwrap().into_result(),
        Err(Error::Verbs(_))
    ));
    assert!(matches!(
        world.actions.queue.last(),
        Some(Action::IoEvent { event: IoTerminalEvent::Closed, .. })
    ));
}

#[test]
fn cancelled_deliveries_are_torn_down() {
    let mut world = world();
    let (request, route) = install_outbound(&mut world, 83);
    world.connects.get_mut(request).unwrap().route_token = route.encode();
    assert!(outbound::process_cancellation(
        &mut world.connections,
        &mut world.connects,
        request
    )
    .is_none());
    outbound::handle_established(
        &mut world.connections,
        &mut world.connects,
        route,
        false,
        &mut world.actions,
    )
    .unwrap();
    let closed =
        outbound::process_cancellation(&mut world.connections, &mut world.connects, request);
    assert_eq!(closed, Some(route));
    assert!(world.connects.get_mut(request).unwrap().take_result().is_none());
    world.tear_down(route);
    assert_eq!(world.connections.live(), 0);
}

#[test]
fn failed_error_transition_rolls_back_the_draining_gauge() {
    let mut world = world();
    let reservation = world.connections.try_reserve().unwrap();
    let token = install_reserved_connection(
        &mut world.connections,
        None,
        ConnectionPoster::Synthetic { qp_num: 19, capabilities: None },
        &RdmaConnectionConfig::default(),
        Ok(()),
        None,
        None,
        reservation,
    )
    .ok()
    .unwrap();
    assert_eq!(world.connections.admission_snapshot().draining, 0);
    let refused = Error::Verbs(IoError::other("injected QP ERR transition failure".into()));
    let driver_error = world.close(token, Err(refused)).expect("the engine fails");
    assert!(matches!(driver_error, Error::Verbs(_)));
    let close_error = world.connections.connection(token).unwrap().operation_close_error();
    assert_eq!(close_error.to_string(), driver_error.to_string());
    assert_eq!(world.connections.admission_snapshot().draining, 0);
    assert_eq!(world.connections.admission_snapshot().live, 1);
    assert!(world.connections.is_quarantined(token));
}

#[test]
fn failed_error_transition_wakes_close_waiter_after_guards_drop() {
    let mut world = world();
    let token = world
        .connections
        .register(
            ConnectionPoster::Synthetic { qp_num: 21, capabilities: None },
            None,
            None,
            None,
        )
        .ok()
        .unwrap();
    let refused = Error::Verbs(IoError::other("injected QP ERR transition failure".into()));
    assert!(world.close(token, Err(refused)).is_some());
    assert!(
        world.actions.queue.iter().any(|action| matches!(action, Action::WakeClose { .. })),
        "failed transition must wake the registered close waiter"
    );
    assert_eq!(
        world.connections.admission_snapshot().draining,
        0,
        "failed transition must still roll back the draining gauge"
    );
    assert!(matches!(
        world
            .connections
            .connection(token)
            .unwrap()
            .close
            .raw_outcome()
            .unwrap()
            .into_result(),
        Err(Error::Verbs(_))
    ));
}

#[test]
fn connection_close_wakes_operation_observer_after_guards_drop() {
    let mut world = world();
    let token = world
        .connections
        .register(
            ConnectionPoster::Synthetic { qp_num: 22, capabilities: None },
            None,
            None,
            None,
        )
        .ok()
        .unwrap();
    let operation = OperationToken { slot: 0, generation: 1 };
    world.connections.connection_mut(token).unwrap().io_ledger.add_accepted(operation);
    let step = begin_connection_close_into(
        &world.cm,
        &mut world.connections,
        &mut world.accepts,
        token,
        &mut world.actions,
    );
    assert!(matches!(step, CloseStep::Transition));
    let step = close_transitioned(
        &mut world.connections,
        token,
        Ok(()),
        false,
        GRACE,
        0,
        &mut world.actions,
    );
    assert!(matches!(
        step,
        CloseStep::ScanObservers { slot: 0, budget: 30, error: Error::TransportClosed }
    ));
    close_scanned(&mut world.connections, token, 1, true, GRACE, 0);
    let deadlines = world.connections.take_deadline_requests(8);
    assert_eq!(deadlines.len(), 1);
    assert_eq!(deadlines[0].at, GRACE);
    assert_eq!(world.connections.retirement_count(), 0);
}

#[test]
fn a_close_begins_once_and_later_ones_only_look() {
    let mut world = world();
    let token = world
        .connections
        .register(
            ConnectionPoster::Synthetic { qp_num: 30, capabilities: None },
            None,
            None,
            None,
        )
        .ok()
        .unwrap();
    assert!(world.close(token, Ok(())).is_none());
    assert_eq!(world.steps, vec!["to_error"]);
    assert_eq!(world.connections.phase(token), Some(ConnectionPhase::Retiring));
    assert!(world.close(token, Ok(())).is_none());
    assert_eq!(world.steps, vec!["to_error"]);
    assert_eq!(world.connections.retirement_count(), 1);
}

#[test]
fn the_identifier_goes_after_the_queue_pair_and_the_last_event() {
    let mut world = world();
    let poster = ConnectionPoster::Verbs(VerbsConnectionResources::new_shared(
        31,
        QpCapabilities { max_send_wr: 19, max_recv_wr: 34, max_send_sge: 1, max_recv_sge: 1 },
        CmId { raw_id: 5, context_key: 6, context_token: None },
    ));
    let token = world.connections.register(poster, None, None, None).ok().unwrap();
    world.tear_down(token);
    assert!(world.retired.is_empty());
    assert!(world.connections.connection(token).unwrap().qp_destroyed);
    assert_eq!(world.cm.destruction_work_count(), 1);

    let pending = next_destruction(&mut world.cm, 0, 1).unwrap();
    assert!(destruction_probed(&mut world.cm, pending, Ok(true)).unwrap().is_none());
    let pending = next_destruction(&mut world.cm, 0, 1).unwrap();
    let pending = destruction_probed(&mut world.cm, pending, Ok(false)).unwrap().unwrap();
    let done = complete_destruction(
        &mut world.cm,
        &mut world.connections,
        &mut world.accepts,
        pending,
        Ok(()),
        &mut world.actions,
    )
    .unwrap();
    let Destroyed::Connection(Some(connection)) = done else {
        panic!("the connection retires with its identifier");
    };
    assert!(connection.close.outcome().unwrap().is_success());
    assert!(matches!(world.connections.lookup(token), Lookup::Duplicate));
}

#[test]
fn a_queue_pair_that_stays_keeps_its_bundle() {
    let mut world = world();
    let token = world
        .connections
        .register(
            ConnectionPoster::Synthetic { qp_num: 32, capabilities: None },
            None,
            None,
            None,
        )
        .ok()
        .unwrap();
    assert!(world.close(token, Ok(())).is_none());
    world.retire(token, Err(Error::Verbs(IoError::other("busy".into()))));
    assert!(world.connections.is_quarantined(token));
    assert!(matches!(
        world.connections.connection(token).unwrap().close.outcome().unwrap().into_result(),
        Err(Error::ConnectionDestroyQuarantined { cause }) if cause.contains("busy")
    ));
    assert!(world.retired.is_empty());
}

#[test]
fn inbound_disconnects_fail_the_waiting_accept() {
    let mut world = world();
    let (listener, request, route) = install_selected_route(&mut world, 76);
    publish_success(&mut world, request, route);
    let step = inbound::handle_disconnected(
        &mut world.connections,
        &mut world.accepts,
        route,
        &mut world.actions,
    )
    .unwrap();
    assert!(matches!(step, InboundStep::Teardown { connection } if connection == route));
    assert!(matches!(
        world.accepts.get_mut(request).unwrap().take_result(),
        Some(Err(Error::Verbs(io))) if io.kind == IoErrorKind::ConnectionAborted
            && io.message == "inbound connection disconnected before accept delivery"
    ));
    world.tear_down(route);
    assert_selected_route_released(&world, listener, route);
    let again = inbound::handle_disconnected(
        &mut world.connections,
        &mut world.accepts,
        route,
        &mut world.actions,
    )
    .unwrap();
    assert!(matches!(
        again,
        InboundStep::Done(EventDisposition::Rejected(CmEventReject::Duplicate))
    ));
}

#[test]
fn a_failure_during_a_transition_is_an_error() {
    let mut world = world();
    let listener = ListenerToken { slot: 0, generation: 1 };
    let route = world.connections.register_inbound(InboundRoute::new(listener)).ok().unwrap();
    let snapshot = CmEventSnapshot {
        event_type: CmEventType::Rejected,
        status: 28,
        id: 1,
        listen_id: 2,
        context_key: 3,
    };
    assert!(matches!(
        inbound::handle_failure(
            &mut world.connections,
            &mut world.accepts,
            route,
            snapshot,
            &mut world.actions,
        ),
        Err(Error::InvalidConfig(message))
            if message == "inbound CM route was re-entered while transitioning"
    ));
}
