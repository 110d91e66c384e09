use rdma_session::accept::{
    admit_reserved_child, closed_pair_rejected, connect_request_adopted, failed_install_destroyed,
    failed_install_rejected, handle_connect_request, process_selected_pair, reject_child,
    selected_accept_replied, selected_child_rejected, selected_context_installed,
    selected_qp_built, selected_rejected, selected_setup_done, service_listener,
    take_pending_child, unpaired_child_rejected, unreserved_child_rejected, ConnectRequestStep, ListenerStep, SelectedStep,
};
use rdma_session::actions::ReactorActions;
use rdma_session::cm::CmState;
use rdma_session::config::{QpCapabilities, RdmaConnectionConfig};
use rdma_session::connection::CmId;
use rdma_session::error::{Error, IoError, IoErrorKind};
use rdma_session::event::{CmEventReject, CmEventSnapshot, CmEventType, EventDisposition};
use rdma_session::inbound::{handle_established, InboundStep};
use rdma_session::listen::{
    finalize_listener, listen_replied, listener_id_created, start_listener, ListenStep,
};
use rdma_session::listener::{IncomingChild, ListenerAction, RdmaListenerConfig};
use rdma_session::outbound::{
    self, connect_replied, handle_event, outbound_event_finished, route_asked, route_qp_built,
    route_setup_done, start, start_addr_asked, start_id_created, BuiltQp, OutboundStep, SetupHold,
    StartStep,
};
use rdma_session::registry::{ConnectionPhase, ConnectionRegistry};
use rdma_session::requests::{
    empty_connection_setup, AcceptIntent, AcceptRequest, ListenRequest, OutboundRequest,
};
use rdma_session::retirement::retire_after_reject;
use rdma_session::routes::{InboundRejectReason, InboundState, OutboundState};
use rdma_session::session::{
    admission_error, admit_connect, admit_listen, route_completion, shutdown_requested,
    CompletionRoute, OperationKind, RdmaConnection, RdmaListener, RdmaOperation,
};
use rdma_session::slots::{Lookup, SlotRegistry};
use rdma_session::terminal::{
    MemoizedTerminalResult, SessionCloseState, SessionListenerCloseState, TakeOnceResult,
};
use rdma_session::token::{CmRouteToken, ListenerToken, RequestToken};

struct World {
    cm: CmState,
    connections: ConnectionRegistry,
    accepts: SlotRegistry<AcceptRequest>,
    connects: SlotRegistry<OutboundRequest>,
    listens: SlotRegistry<ListenRequest>,
    actions: ReactorActions,
}

fn world() -> World {
    World {
        cm: CmState::new(4),
        connections: ConnectionRegistry::new(4),
        accepts: SlotRegistry::new(4),
        connects: SlotRegistry::new(4),
        listens: SlotRegistry::new(4),
        actions: ReactorActions::new(),
    }
}

fn cm_id(raw_id: u64, context_key: u64, context_token: Option<u64>) -> CmId {
    CmId { raw_id, context_key, context_token }
}

fn built(qp_num: u32, max_send_wr: u32) -> BuiltQp {
    BuiltQp {
        qp_num,
        capabilities: QpCapabilities {
            max_send_wr,
            max_recv_wr: 34,
            max_send_sge: 1,
            max_recv_sge: 1,
        },
        local_addr: Some("10.0.0.1:1".into()),
        peer_addr: Some("10.0.0.2:2".into()),
        config_check: Ok(()),
        parameters_check: Ok(()),
    }
}

fn event(event_type: CmEventType) -> CmEventSnapshot {
    CmEventSnapshot { event_type, status: 0, id: 11, listen_id: 0, context_key: 17 }
}

fn verbs_error(text: &str) -> Error {
    Error::Verbs(IoError::other(text.into()))
}

impl World {
    fn connect(&mut self) -> RequestToken {
        self.connects
            .allocate(OutboundRequest::new(
                "127.0.0.1:7471".into(),
                RdmaConnectionConfig::default(),
                empty_connection_setup(),
            ))
            .ok()
            .unwrap()
    }

    fn start_connect(&mut self) -> (RequestToken, CmRouteToken) {
        let request = self.connect();
        let reservation = self.connections.try_reserve().unwrap();
        let step = start(
            &self.cm,
            &mut self.connections,
            &mut self.connects,
            request,
            reservation,
            &mut self.actions,
        );
        let StartStep::CreateId { token, request, reservation } = step else {
            panic!("a route is opened");
        };
        let created = Ok(cm_id(11, 17, Some(token.encode())));
        let step = start_id_created(
            &mut self.cm,
            &mut self.connections,
            &mut self.connects,
            token,
            request,
            reservation,
            created,
            &mut self.actions,
        );
        let StartStep::ResolveAddr(hold) = step else {
            panic!("the address is resolved");
        };
        assert!(start_addr_asked(
            &mut self.cm,
            &mut self.connections,
            &mut self.connects,
            hold,
            Ok(()),
            &mut self.actions,
        ));
        (request, token)
    }

    fn event(&mut self, token: CmRouteToken, kind: CmEventType, shutting_down: bool) -> OutboundStep {
        handle_event(
            &mut self.cm,
            &mut self.connections,
            &mut self.connects,
            token,
            event(kind),
            shutting_down,
            &mut self.actions,
        )
        .unwrap()
    }

    fn build_hold(&mut self, token: CmRouteToken) -> SetupHold {
        let OutboundStep::ResolveRoute(hold) = self.event(token, CmEventType::AddrResolved, false)
        else {
            panic!("the route is resolved");
        };
        assert_eq!(
            route_asked(
                &mut self.cm,
                &mut self.connections,
                &mut self.connects,
                hold,
                Ok(()),
                &mut self.actions,
            ),
            EventDisposition::Handled
        );
        let OutboundStep::BuildQp(hold) = self.event(token, CmEventType::RouteResolved, false)
        else {
            panic!("a queue pair is built");
        };
        hold
    }

    fn result(&self, request: RequestToken) -> &TakeOnceResult<rdma_session::token::SlotToken> {
        &self.connects.get(request).unwrap().completion.result
    }
}

#[test]
fn a_connect_goes_from_start_to_establishment() {
    let mut world = world();
    let (request, token) = world.start_connect();
    assert_eq!(world.connects.get(request).unwrap().route_token, token.encode());
    let hold = world.build_hold(token);
    assert!(!outbound_event_finished(
        &mut world.connections,
        token,
        event(CmEventType::AddrResolved)
    ));
    let step = route_qp_built(
        &mut world.cm,
        &mut world.connections,
        &mut world.connects,
        hold,
        Ok(built(41, 19)),
        &mut world.actions,
    );
    let OutboundStep::RunSetup { accepted_before, .. } = step else {
        panic!("the setup runs");
    };
    assert_eq!(accepted_before, 0);
    let step = route_setup_done(
        &mut world.connections,
        &world.connects,
        token,
        request,
        accepted_before,
        Ok(0),
        false,
    )
    .unwrap();
    assert!(matches!(step, OutboundStep::Connect { raw_id: 11, .. }));
    let step =
        connect_replied(&mut world.connections, &world.connects, token, request, Ok(()), false)
            .unwrap();
    assert!(matches!(step, OutboundStep::Done(EventDisposition::Handled)));
    let step = world.event(token, CmEventType::Established, false);
    assert!(matches!(step, OutboundStep::Done(EventDisposition::Handled)));
    assert_eq!(world.connections.phase(token), Some(ConnectionPhase::Active));
    assert!(matches!(world.result(request), TakeOnceResult::Ready(Ok(found)) if *found == token));
    assert!(outbound_event_finished(
        &mut world.connections,
        token,
        event(CmEventType::Established)
    ));
}

#[test]
fn a_connect_that_was_cancelled_does_not_start() {
    let mut world = world();
    let request = world.connect();
    world.connects.get_mut(request).unwrap().completion.cancel(Error::DriverShutdown);
    let reservation = world.connections.try_reserve().unwrap();
    let step = start(
        &world.cm,
        &mut world.connections,
        &mut world.connects,
        request,
        reservation,
        &mut world.actions,
    );
    assert!(matches!(step, StartStep::Started(false)));
    assert_eq!(world.connections.live(), 0);
    assert_eq!(world.connections.admission_snapshot().live, 0);
}

#[test]
fn identifiers_must_carry_the_route_they_were_made_for() {
    for (context, text) in [
        (None, "engine CM ID lost its route context token"),
        (Some(99), "engine CM context token did not match its route"),
    ] {
        let mut world = world();
        let request = world.connect();
        let reservation = world.connections.try_reserve().unwrap();
        let StartStep::CreateId { token, request, reservation } = start(
            &world.cm,
            &mut world.connections,
            &mut world.connects,
            request,
            reservation,
            &mut world.actions,
        ) else {
            panic!("a route is opened");
        };
        let step = start_id_created(
            &mut world.cm,
            &mut world.connections,
            &mut world.connects,
            token,
            request,
            reservation,
            Ok(cm_id(11, 17, context)),
            &mut world.actions,
        );
        assert!(matches!(step, StartStep::Started(false)));
        assert!(matches!(
            world.result(request),
            TakeOnceResult::Ready(Err(Error::InvalidConfig(message))) if message == text
        ));
        assert_eq!(world.cm.destruction_work_count(), 1);
        assert_eq!(world.connections.live(), 0);
    }
}

#[test]
fn a_failed_address_gives_the_setup_up() {
    let mut world = world();
    let (request, token) = world.start_connect();
    let failed = CmEventSnapshot { status: -110, ..event(CmEventType::AddrError) };
    let step = handle_event(
        &mut world.cm,
        &mut world.connections,
        &mut world.connects,
        token,
        failed,
        false,
        &mut world.actions,
    )
    .unwrap();
    assert!(matches!(step, OutboundStep::Done(EventDisposition::Handled)));
    assert!(matches!(
        world.result(request),
        TakeOnceResult::Ready(Err(Error::Verbs(io)))
            if io.message == "RDMA CM AddrError failed with status -110 for id=0xb listen_id=0x0"
    ));
    assert_eq!(world.cm.destruction_work_count(), 1);
    assert_eq!(world.connections.live(), 0);
}

#[test]
fn a_late_failure_after_shutdown_is_ignored() {
    let mut world = world();
    let (request, token) = world.start_connect();
    let failed = CmEventSnapshot { status: -110, ..event(CmEventType::AddrError) };
    let step = handle_event(
        &mut world.cm,
        &mut world.connections,
        &mut world.connects,
        token,
        failed,
        true,
        &mut world.actions,
    )
    .unwrap();
    assert!(matches!(step, OutboundStep::Done(EventDisposition::IgnoredAfterShutdown)));
    assert!(matches!(
        world.result(request),
        TakeOnceResult::Ready(Err(Error::DriverShutdown))
    ));
}

#[test]
fn a_queue_pair_that_grants_too_little_is_given_up() {
    let mut world = world();
    let (request, token) = world.start_connect();
    let hold = world.build_hold(token);
    let step = route_qp_built(
        &mut world.cm,
        &mut world.connections,
        &mut world.connects,
        hold,
        Ok(built(41, 18)),
        &mut world.actions,
    );
    let OutboundStep::DestroyFailedInstall { token, request: asked, error, resources } = step
    else {
        panic!("the queue pair is destroyed again");
    };
    assert_eq!(asked, request);
    outbound::failed_install_destroyed(
        &mut world.cm,
        &mut world.connections,
        &mut world.connects,
        token,
        request,
        error,
        resources,
        Ok(true),
        &mut world.actions,
    );
    assert!(matches!(
        world.result(request),
        TakeOnceResult::Ready(Err(Error::InvalidConfig(message)))
            if message == "provider returned maximum send WRs 18, below requested 19"
    ));
    assert_eq!(world.cm.destruction_work_count(), 1);
    assert_eq!(world.connections.live(), 0);
}

#[test]
fn an_installation_that_cannot_be_undone_is_kept() {
    let mut world = world();
    let (request, token) = world.start_connect();
    let hold = world.build_hold(token);
    let OutboundStep::DestroyFailedInstall { error, resources, .. } = route_qp_built(
        &mut world.cm,
        &mut world.connections,
        &mut world.connects,
        hold,
        Ok(built(0, 19)),
        &mut world.actions,
    ) else {
        panic!("the queue pair is destroyed again");
    };
    outbound::failed_install_destroyed(
        &mut world.cm,
        &mut world.connections,
        &mut world.connects,
        token,
        request,
        error,
        resources,
        Err(verbs_error("busy")),
        &mut world.actions,
    );
    assert!(world.connections.is_quarantined(token));
    assert!(matches!(
        world.connections.outbound_route(token).unwrap().state,
        OutboundState::Quarantined { connection: None }
    ));
    assert_eq!(world.connections.admission_snapshot().quarantined_bundles, 1);
}

#[test]
fn a_setup_that_was_used_up_fails_the_connect() {
    let mut world = world();
    let (request, token) = world.start_connect();
    let hold = world.build_hold(token);
    world.connects.get_mut(request).unwrap().take_setup();
    let step = route_qp_built(
        &mut world.cm,
        &mut world.connections,
        &mut world.connects,
        hold,
        Ok(built(41, 19)),
        &mut world.actions,
    );
    assert!(matches!(
        step,
        OutboundStep::Teardown { failed: Some((_, Error::InvalidConfig(message))), .. }
            if message == "outbound request setup was consumed more than once"
    ));
}

#[test]
fn a_shutdown_before_the_connect_tears_down() {
    let mut world = world();
    let (request, token) = world.start_connect();
    let hold = world.build_hold(token);
    route_qp_built(
        &mut world.cm,
        &mut world.connections,
        &mut world.connects,
        hold,
        Ok(built(41, 19)),
        &mut world.actions,
    );
    let step = route_setup_done(
        &mut world.connections,
        &world.connects,
        token,
        request,
        0,
        Ok(0),
        true,
    )
    .unwrap();
    assert!(matches!(
        step,
        OutboundStep::Teardown { failed: Some((_, Error::DriverShutdown)), .. }
    ));
    assert!(matches!(
        world.connections.outbound_route(token).unwrap().state,
        OutboundState::Closing { .. }
    ));
}

fn listening(world: &mut World, backlog: usize) -> ListenerToken {
    let config = RdmaListenerConfig::default().backlog(backlog);
    let listener = world.cm.listeners.reserve("127.0.0.1:1".into(), config).unwrap();
    let request = world
        .listens
        .allocate(ListenRequest::new("127.0.0.1:1".into(), config))
        .ok()
        .unwrap();
    let step = start_listener(
        &mut world.cm,
        &mut world.listens,
        listener,
        request,
        false,
        &mut world.actions,
    );
    assert!(matches!(step, ListenStep::CreateId));
    let step = listener_id_created(
        &mut world.cm,
        &mut world.listens,
        listener,
        request,
        Ok(cm_id(33, 44, Some(listener.encode()))),
        &mut world.actions,
    );
    let ListenStep::Listen { cm_id, backlog: asked } = step else {
        panic!("the provider listens");
    };
    assert_eq!(asked as usize, backlog);
    listen_replied(
        &mut world.cm,
        &mut world.listens,
        listener,
        request,
        cm_id,
        asked,
        Ok(Some("127.0.0.1:4711".into())),
        &mut world.actions,
    );
    assert!(matches!(
        world.listens.get(request).unwrap().completion.result,
        TakeOnceResult::Ready(Ok(token)) if token == listener
    ));
    listener
}

#[test]
fn a_listener_listens_and_is_finalized() {
    let mut world = world();
    let listener = listening(&mut world, 2);
    let entry = world.cm.listeners.get(listener).unwrap();
    assert_eq!(entry.display_addr(), "127.0.0.1:4711");
    let handle = RdmaListener::from_state(entry);
    assert_eq!(handle.local_addr().unwrap(), "127.0.0.1:4711");
    assert_eq!(handle.clone().token, listener);
    assert_eq!(world.cm.listeners.token_for_raw(33), Some(listener));
    world.cm.listeners.get_mut(listener).unwrap().request_close();
    finalize_listener(&mut world.cm, listener);
    assert_eq!(world.cm.listeners.token_for_raw(33), None);
    assert_eq!(world.cm.destruction_work_count(), 1);
    assert!(world.cm.listeners.get(listener).unwrap().cm_destruction_pending);
}

#[test]
fn refused_listeners_say_why() {
    let mut world = world();
    let config = RdmaListenerConfig::default().backlog(4);
    let listener = world.cm.listeners.reserve("127.0.0.1:1".into(), config).unwrap();
    let ask = |world: &mut World, config: RdmaListenerConfig| {
        world.listens.allocate(ListenRequest::new("127.0.0.1:1".into(), config)).ok().unwrap()
    };
    let first = ask(&mut world, config);
    listen_replied(
        &mut world.cm,
        &mut world.listens,
        listener,
        first,
        cm_id(33, 44, None),
        4,
        Err(Error::Verbs(IoError::new(IoErrorKind::AddrInUse, "in use".into()))),
        &mut world.actions,
    );
    assert!(matches!(
        &world.listens.get(first).unwrap().completion.result,
        TakeOnceResult::Ready(Err(Error::Verbs(io)))
            if io.kind == IoErrorKind::AddrInUse
                && io.message == "listen on 127.0.0.1:1 with backlog 4: in use"
    ));
    let second = ask(&mut world, config);
    listen_replied(
        &mut world.cm,
        &mut world.listens,
        listener,
        second,
        cm_id(34, 45, None),
        4,
        Ok(None),
        &mut world.actions,
    );
    assert!(matches!(
        &world.listens.get(second).unwrap().completion.result,
        TakeOnceResult::Ready(Err(Error::InvalidConfig(message)))
            if message == "listener 127.0.0.1:1 has no local address after rdma_listen"
    ));
    let third = ask(&mut world, config.backlog(0));
    let step = listener_id_created(
        &mut world.cm,
        &mut world.listens,
        listener,
        third,
        Ok(cm_id(35, 46, None)),
        &mut world.actions,
    );
    assert!(matches!(step, ListenStep::Done));
    assert!(matches!(
        &world.listens.get(third).unwrap().completion.result,
        TakeOnceResult::Ready(Err(Error::InvalidConfig(message)))
            if message == "listener backlog 0 is outside 1..=4096"
    ));
    assert_eq!(world.cm.destruction_work_count(), 3);
}

fn connect_request(world: &mut World, listener: ListenerToken, raw_id: u64) -> ConnectRequestStep {
    let snapshot = CmEventSnapshot {
        event_type: CmEventType::ConnectRequest,
        status: 0,
        id: raw_id,
        listen_id: 33,
        context_key: 0,
    };
    match handle_connect_request(&world.cm, listener, snapshot) {
        ConnectRequestStep::Adopt { raw_id } => connect_request_adopted(
            &mut world.cm,
            &mut world.connections,
            &world.accepts,
            listener,
            cm_id(raw_id, 0, None),
            Ok(()),
            None,
        ),
        step => step,
    }
}

fn accepting(world: &mut World, listener: ListenerToken) -> RequestToken {
    let entry = world.cm.listeners.get_mut(listener).unwrap();
    let permit = entry.admission.try_acquire().unwrap();
    let token = world.accepts.next_token().unwrap();
    let intent = AcceptIntent::new(RdmaConnectionConfig::default(), empty_connection_setup());
    let request = world.accepts.allocate(AcceptRequest::new(token, intent, permit)).ok().unwrap();
    entry.register_waiter(request, &world.accepts).unwrap();
    request
}

fn selected(world: &mut World) -> (ListenerToken, RequestToken, CmRouteToken, SelectedStep) {
    let listener = listening(world, 2);
    let request = accepting(world, listener);
    assert!(matches!(
        connect_request(world, listener, 77),
        ConnectRequestStep::Done(EventDisposition::Handled)
    ));
    assert_eq!(world.cm.listener_work_count(), 1);
    let step = service_listener(
        &mut world.cm,
        &mut world.connections,
        &mut world.accepts,
        listener,
        false,
        true,
        &mut world.actions,
    )
    .unwrap();
    let ListenerStep::Selected(step) = step else {
        panic!("the pair is set up");
    };
    let SelectedStep::InstallContextToken(hold) = step else {
        panic!("the route's token goes to the identifier");
    };
    let token = hold.token;
    let step =
        selected_context_installed(&mut world.cm, &mut world.connections, hold, Ok(55)).unwrap();
    (listener, request, token, step)
}

#[test]
fn an_inbound_child_goes_from_request_to_delivery() {
    let mut world = world();
    let (listener, request, token, step) = selected(&mut world);
    let SelectedStep::BuildQp(hold) = step else {
        panic!("a queue pair is built");
    };
    assert_eq!(hold.cm_id.context_token, Some(token.encode()));
    let step =
        selected_qp_built(&mut world.cm, &mut world.connections, &world.accepts, hold, Ok(built(61, 19)));
    let SelectedStep::RunSetup { accepted_before, .. } = step else {
        panic!("the setup runs");
    };
    let step = selected_setup_done(
        &mut world.cm,
        &mut world.connections,
        &mut world.accepts,
        token,
        listener,
        request,
        accepted_before,
        Ok(0),
        false,
        &mut world.actions,
    )
    .unwrap();
    assert!(matches!(step, SelectedStep::Accept { raw_id: 77, .. }));
    let step = selected_accept_replied(
        &mut world.cm,
        &mut world.connections,
        &mut world.accepts,
        token,
        request,
        Ok(()),
        &mut world.actions,
    )
    .unwrap();
    assert!(matches!(step, SelectedStep::Done));
    assert!(matches!(
        world.connections.inbound_route(token).unwrap().state,
        InboundState::AwaitEstablished { .. }
    ));
    let step = handle_established(
        &mut world.cm,
        &mut world.connections,
        &mut world.accepts,
        token,
        false,
        &mut world.actions,
    )
    .unwrap();
    assert_eq!(step, InboundStep::Done(EventDisposition::Handled));
    assert!(matches!(
        world.accepts.get_mut(request).unwrap().take_result(),
        Some(Ok(connection)) if connection == token
    ));
    let step = service_listener(
        &mut world.cm,
        &mut world.connections,
        &mut world.accepts,
        listener,
        false,
        true,
        &mut world.actions,
    )
    .unwrap();
    assert!(matches!(step, ListenerStep::Done));
    let entry = world.cm.listeners.get(listener).unwrap();
    assert!(!entry.selected_is_some());
    assert_eq!(entry.child_slots_used(), 0);
    assert_eq!(entry.admission.available_permits(), 2);
}

#[test]
fn a_full_backlog_rejects_the_child() {
    let mut world = world();
    let listener = listening(&mut world, 1);
    assert!(matches!(
        connect_request(&mut world, listener, 77),
        ConnectRequestStep::Done(EventDisposition::Handled)
    ));
    let step = connect_request(&mut world, listener, 78);
    let ConnectRequestStep::RejectChild { token, reason: InboundRejectReason::BacklogFull } = step
    else {
        panic!("the backlog is full");
    };
    let held = take_pending_child(&mut world.connections, token);
    assert!(held.is_some());
    reject_child(
        &mut world.cm,
        &mut world.connections,
        token,
        held,
        InboundRejectReason::BacklogFull,
        Ok(()),
    )
    .unwrap();
    assert!(matches!(world.connections.lookup_inbound(token), Lookup::Duplicate));
    assert_eq!(world.cm.destruction_work_count(), 1);
}

#[test]
fn a_reject_that_fails_keeps_the_child() {
    let mut world = world();
    let listener = listening(&mut world, 1);
    connect_request(&mut world, listener, 77);
    let ConnectRequestStep::RejectChild { token, reason } = connect_request(&mut world, listener, 78)
    else {
        panic!("the backlog is full");
    };
    let held = take_pending_child(&mut world.connections, token);
    let error = reject_child(
        &mut world.cm,
        &mut world.connections,
        token,
        held,
        reason,
        Err(verbs_error("gone")),
    )
    .unwrap_err();
    assert!(matches!(
        error,
        Error::Verbs(io) if io.message == "reject inbound child (BacklogFull): gone"
    ));
    assert!(world.connections.is_quarantined(token));
    let error = unreserved_child_rejected(
        &mut world.cm,
        cm_id(9, 9, None),
        InboundRejectReason::ContextMismatch,
        Err(verbs_error("gone")),
    )
    .unwrap_err();
    assert!(matches!(
        error,
        Error::Verbs(io) if io.message == "reject inbound child (ContextMismatch): gone"
    ));
    assert_eq!(world.cm.quarantined.len(), 1);
}

#[test]
fn requests_for_ended_listeners_are_rejected() {
    let mut world = world();
    let listener = listening(&mut world, 1);
    let snapshot = CmEventSnapshot { id: 0, ..event(CmEventType::ConnectRequest) };
    assert!(matches!(
        handle_connect_request(&world.cm, listener, snapshot),
        ConnectRequestStep::Done(EventDisposition::Rejected(CmEventReject::Unknown))
    ));
    world.cm.listeners.get_mut(listener).unwrap().request_close();
    let snapshot = CmEventSnapshot { id: 5, ..snapshot };
    assert!(matches!(
        handle_connect_request(&world.cm, listener, snapshot),
        ConnectRequestStep::RejectRaw { raw_id: 5, reason: InboundRejectReason::ListenerClosed }
    ));
    let refused = admit_reserved_child(
        &mut world.cm,
        &mut world.connections,
        &world.accepts,
        listener,
        cm_id(5, 0, None),
        Err(Error::CapacityExhausted),
    );
    assert!(matches!(
        refused,
        ConnectRequestStep::RejectId { reason: InboundRejectReason::ConnectionCapacity, .. }
    ));
    let refused = admit_reserved_child(
        &mut world.cm,
        &mut world.connections,
        &world.accepts,
        listener,
        cm_id(5, 0, None),
        Err(Error::DriverShutdown),
    );
    assert!(matches!(
        refused,
        ConnectRequestStep::RejectId { reason: InboundRejectReason::AdmissionClosed, .. }
    ));
}

#[test]
fn a_queue_pair_that_cannot_be_built_ends_the_pair() {
    let mut world = world();
    let (listener, request, token, step) = selected(&mut world);
    let SelectedStep::BuildQp(hold) = step else {
        panic!("a queue pair is built");
    };
    let step = selected_qp_built(
        &mut world.cm,
        &mut world.connections,
        &world.accepts,
        hold,
        Err(verbs_error("no memory")),
    );
    let SelectedStep::RejectChild(rejection) = step else {
        panic!("the child is rejected");
    };
    assert!(!world.cm.context_routes.contains_key(&55));
    selected_child_rejected(
        &mut world.cm,
        &mut world.connections,
        &mut world.accepts,
        rejection,
        Ok(()),
        &mut world.actions,
    )
    .unwrap();
    assert!(matches!(
        world.accepts.get_mut(request).unwrap().take_result(),
        Some(Err(Error::Verbs(io)))
            if io.message == "build inbound QP for 127.0.0.1:4711: no memory"
    ));
    assert!(!world.cm.listeners.get(listener).unwrap().selected_is_some());
    assert!(matches!(world.connections.lookup_inbound(token), Lookup::Duplicate));
}

#[test]
fn a_failed_inbound_installation_is_rejected_and_destroyed() {
    let mut world = world();
    let (listener, request, token, step) = selected(&mut world);
    let SelectedStep::BuildQp(hold) = step else {
        panic!("a queue pair is built");
    };
    let step = selected_qp_built(&mut world.cm, &mut world.connections, &world.accepts, hold, Ok(built(0, 19)));
    let SelectedStep::RejectInstall { error, resources, target, .. } = step else {
        panic!("the peer is rejected");
    };
    assert_eq!(target.unwrap(), 77);
    let step = failed_install_rejected(
        &mut world.cm,
        &mut world.connections,
        &mut world.accepts,
        token,
        listener,
        request,
        error,
        resources,
        Ok(()),
        &mut world.actions,
    )
    .unwrap();
    let SelectedStep::DestroyInstall { error, resources, .. } = step else {
        panic!("the queue pair is destroyed");
    };
    failed_install_destroyed(
        &mut world.cm,
        &mut world.connections,
        &mut world.accepts,
        token,
        listener,
        request,
        error,
        resources,
        Ok(true),
        &mut world.actions,
    );
    assert!(matches!(
        world.accepts.get_mut(request).unwrap().take_result(),
        Some(Err(Error::InvalidConfig(message))) if message == "provider returned zero qp_num"
    ));
    assert_eq!(world.cm.destruction_work_count(), 1);
    assert_eq!(world.connections.live(), 0);
    assert!(!world.cm.listeners.get(listener).unwrap().selected_is_some());
}

#[test]
fn a_failed_setup_rejects_the_peer_and_closes() {
    let mut world = world();
    let (listener, request, token, step) = selected(&mut world);
    let SelectedStep::BuildQp(hold) = step else {
        panic!("a queue pair is built");
    };
    selected_qp_built(&mut world.cm, &mut world.connections, &world.accepts, hold, Ok(built(61, 19)));
    let step = selected_setup_done(
        &mut world.cm,
        &mut world.connections,
        &mut world.accepts,
        token,
        listener,
        request,
        0,
        Err(Error::InvalidConfig("no buffers".into())),
        false,
        &mut world.actions,
    )
    .unwrap();
    let SelectedStep::RejectSelected { connection, reason, error, target, .. } = step else {
        panic!("the peer is rejected");
    };
    assert_eq!(reason, InboundRejectReason::SetupFailure);
    assert_eq!(target.unwrap(), 77);
    let refused = selected_rejected(
        &mut world.cm,
        &mut world.connections,
        &mut world.accepts,
        token,
        request,
        connection,
        reason,
        error,
        Err(verbs_error("gone")),
        &mut world.actions,
    )
    .err()
    .unwrap();
    assert!(matches!(
        refused,
        Error::Verbs(io) if io.message
            == "reject selected inbound child after setup failure (SetupFailure): gone"
    ));
    assert!(world.connections.is_quarantined(token));
    assert!(world.cm.listeners.get(listener).unwrap().is_closing());
    assert!(matches!(
        world.accepts.get_mut(request).unwrap().take_result(),
        Some(Err(Error::InvalidConfig(message))) if message == "no buffers"
    ));
}

#[test]
fn a_rejected_setup_is_closed_with_its_error() {
    let mut world = world();
    let (listener, request, token, step) = selected(&mut world);
    let SelectedStep::BuildQp(hold) = step else {
        panic!("a queue pair is built");
    };
    selected_qp_built(&mut world.cm, &mut world.connections, &world.accepts, hold, Ok(built(61, 19)));
    let step = selected_setup_done(
        &mut world.cm,
        &mut world.connections,
        &mut world.accepts,
        token,
        listener,
        request,
        0,
        Ok(0),
        true,
        &mut world.actions,
    )
    .unwrap();
    let SelectedStep::RejectSelected { connection, reason, error, .. } = step else {
        panic!("the peer is rejected");
    };
    assert_eq!(reason, InboundRejectReason::AdmissionClosed);
    let step = selected_rejected(
        &mut world.cm,
        &mut world.connections,
        &mut world.accepts,
        token,
        request,
        connection,
        reason,
        error,
        Ok(()),
        &mut world.actions,
    )
    .unwrap();
    assert!(matches!(step, SelectedStep::Teardown { connection } if connection == token));
    assert!(matches!(
        world.connections.inbound_route(token).unwrap().state,
        InboundState::Closing { completion: Some(Error::DriverShutdown), selected: true, .. }
    ));
}

#[test]
fn ended_pairs_are_rejected_before_setup() {
    let mut world = world();
    let listener = listening(&mut world, 2);
    let request = accepting(&mut world, listener);
    connect_request(&mut world, listener, 77);
    let entry = world.cm.listeners.get_mut(listener).unwrap();
    let ListenerAction::ProcessSelected { child, .. } = entry.next_action(&mut world.accepts)
    else {
        panic!("the pair is selected");
    };
    let step = process_selected_pair(
        &world.cm,
        &mut world.connections,
        &mut world.accepts,
        listener,
        request,
        IncomingChild::new(child.into_token()),
        true,
    )
    .unwrap();
    let SelectedStep::RejectChild(rejection) = step else {
        panic!("a shutdown ends the pair");
    };
    assert_eq!(rejection.reason, InboundRejectReason::AdmissionClosed);
    assert!(rejection.held.is_some());
    selected_child_rejected(
        &mut world.cm,
        &mut world.connections,
        &mut world.accepts,
        rejection,
        Ok(()),
        &mut world.actions,
    )
    .unwrap();
    assert!(matches!(
        world.accepts.get_mut(request).unwrap().take_result(),
        Some(Err(Error::DriverShutdown))
    ));
    assert!(!world.cm.listeners.get(listener).unwrap().selected_is_some());
}

#[test]
fn admission_follows_the_engine() {
    let failed = MemoizedTerminalResult::from_error(Error::InvalidConfig("failed".into()));
    assert!(matches!(
        admission_error(Some(failed), Some(None)),
        Some(Error::InvalidConfig(_))
    ));
    assert!(admission_error(Some(MemoizedTerminalResult::success()), None).is_none());
    assert!(matches!(admission_error(None, None), Some(Error::DriverShutdown)));
    assert!(admission_error(None, Some(None)).is_none());
    assert!(shutdown_requested(None));
    assert!(!shutdown_requested(Some(false)));
    assert!(matches!(
        admit_listen(&RdmaListenerConfig::default(), None::<u8>, None),
        Err(Error::DriverShutdown)
    ));
    assert!(matches!(admit_listen(&RdmaListenerConfig::default(), Some(1u8), None), Ok(1)));
    assert!(matches!(
        admit_connect(Ok(()), true, Err::<u8, Error>(Error::DriverShutdown), Some(Error::WouldBlock)),
        Err(Error::WouldBlock)
    ));
    assert!(matches!(
        admit_connect(Ok(()), true, Err::<u8, Error>(Error::CapacityExhausted), None),
        Err(Error::CapacityExhausted)
    ));
}

#[test]
fn session_listener_capability_is_resource_free() {
    let mut world = world();
    let listener = listening(&mut world, 4);
    let entry = world.cm.listeners.get_mut(listener).unwrap();
    let handle = RdmaListener::from_state(entry);
    assert_eq!(Some(handle.local_addr().unwrap()), entry.local_addr);
    entry.close.retain_frontend();
    let clone = handle.clone();
    assert!(!entry.close.release_frontend());
    drop(clone);
    assert!(
        entry.close.release_frontend(),
        "last frontend routes close only by stable listener identity"
    );
    assert_eq!(handle.token, listener);
}

#[test]
fn connection_handle_routes_close_by_identity() {
    let mut world = world();
    let (_request, token) = world.start_connect();
    let hold = world.build_hold(token);
    route_qp_built(
        &mut world.cm,
        &mut world.connections,
        &mut world.connects,
        hold,
        Ok(built(17, 19)),
        &mut world.actions,
    );
    let state = world.connections.connection(token).unwrap();
    let handle = RdmaConnection::from_registered(state, world.connections.connection_route(token));
    assert_eq!(handle.session_token(), token);
    assert!(RdmaConnection::drop_requests_close(&SessionCloseState::new(), 1));
    assert!(!RdmaConnection::drop_requests_close(&SessionCloseState::new(), 2));
    assert!(!world.connections.close_started(handle.session_token()));
    assert!(world.connections.begin_close(handle.session_token()));
    assert!(world.connections.close_started(token));
    world.connections.transition_connection_to_error(token, Ok(())).unwrap();
    assert!(world.connections.connection(token).unwrap().error_transition_complete);
}

#[test]
fn close_waiters_see_their_own_outcome_first() {
    let mut close = SessionListenerCloseState::new();
    let engine = MemoizedTerminalResult::from_error(Error::DriverShutdown);
    assert!(matches!(
        RdmaListener::observe_close(&close, Some(engine.clone())),
        Some(Err(Error::DriverShutdown))
    ));
    assert!(RdmaListener::observe_close(&close, None).is_none());
    close.store_if_empty(MemoizedTerminalResult::success());
    assert!(matches!(RdmaListener::observe_close(&close, Some(engine)), Some(Ok(()))));
    assert!(matches!(RdmaListener::owners(&close, false, true), Err(Error::DriverShutdown)));
    assert!(RdmaListener::owners(&close, true, true).is_ok());
}

#[test]
fn completions_find_live_connections_only() {
    let mut world = world();
    let (_request, token) = world.start_connect();
    assert!(matches!(route_completion(&world.connections, token, 17), CompletionRoute::Stale));
    let hold = world.build_hold(token);
    route_qp_built(
        &mut world.cm,
        &mut world.connections,
        &mut world.connects,
        hold,
        Ok(built(17, 19)),
        &mut world.actions,
    );
    assert!(matches!(
        route_completion(&world.connections, token, 17),
        CompletionRoute::Connection(Some(live)) if live.proves(token, 17)
    ));
    assert!(matches!(
        route_completion(&world.connections, token, 18),
        CompletionRoute::Connection(None)
    ));
}

fn serve(world: &mut World, listener: ListenerToken) -> ListenerStep {
    service_listener(
        &mut world.cm,
        &mut world.connections,
        &mut world.accepts,
        listener,
        false,
        true,
        &mut world.actions,
    )
    .unwrap()
}

#[test]
fn a_closing_listener_rejects_children_that_nobody_took() {
    let mut world = world();
    let listener = listening(&mut world, 2);
    connect_request(&mut world, listener, 77);
    world.cm.listeners.get_mut(listener).unwrap().request_close();
    let ListenerStep::RejectChild { token, held, reason } = serve(&mut world, listener) else {
        panic!("the child is rejected");
    };
    assert_eq!(reason, InboundRejectReason::ListenerClosed);
    assert_eq!(held.as_ref().unwrap().0.raw_id, 77);
    unpaired_child_rejected(
        &mut world.cm,
        &mut world.connections,
        listener,
        token,
        held,
        reason,
        Ok(()),
    )
    .unwrap();
    assert_eq!(world.cm.listeners.get(listener).unwrap().child_slots_used(), 0);
    assert!(matches!(world.connections.lookup_inbound(token), Lookup::Duplicate));
    assert!(matches!(serve(&mut world, listener), ListenerStep::Done));
    assert_eq!(world.cm.listeners.token_for_raw(33), None);
    assert_eq!(world.cm.destruction_work_count(), 2);
}

#[test]
fn a_closing_listener_ends_its_selected_pair() {
    let mut world = world();
    let listener = listening(&mut world, 2);
    let request = accepting(&mut world, listener);
    connect_request(&mut world, listener, 77);
    world.cm.listeners.get_mut(listener).unwrap().request_close();
    let mut rejected = None;
    for _ in 0..4 {
        match serve(&mut world, listener) {
            ListenerStep::RejectSelected { token, held, request, error } => {
                rejected = Some((token, held, request, error));
                break;
            }
            ListenerStep::Done => {}
            _ => panic!("only the pair is left to end"),
        }
    }
    let (token, held, ended, error) = rejected.unwrap();
    assert_eq!(ended, request);
    let refused = closed_pair_rejected(
        &mut world.cm,
        &mut world.connections,
        &mut world.accepts,
        listener,
        request,
        token,
        held,
        error,
        Err(verbs_error("gone")),
        &mut world.actions,
    )
    .unwrap_err();
    assert!(matches!(
        refused,
        Error::Verbs(io) if io.message == "reject inbound child (ListenerClosed): gone"
    ));
    assert!(world.connections.is_quarantined(token));
    assert!(matches!(
        world.accepts.get_mut(request).unwrap().take_result(),
        Some(Err(Error::TransportClosed))
    ));
    assert!(!world.cm.listeners.get(listener).unwrap().selected_is_some());
}

#[test]
fn a_rejected_peer_lets_its_identifier_go() {
    let mut world = world();
    let token = CmRouteToken { slot: 3, generation: 1 };
    retire_after_reject(&mut world.cm, token, cm_id(5, 6, None), None, Ok(())).unwrap();
    assert_eq!(world.cm.destruction_work_count(), 1);
    let refused = retire_after_reject(
        &mut world.cm,
        token,
        cm_id(5, 6, None),
        None,
        Err(verbs_error("gone")),
    )
    .unwrap_err();
    assert!(matches!(
        refused,
        Error::Verbs(io)
            if io.message == "reject selected inbound child after setup rollback: gone"
    ));
    assert_eq!(world.cm.destruction_work_count(), 1);
}

#[test]
fn operations_carry_their_connection_and_their_kind() {
    let mut world = world();
    let (_request, token) = world.start_connect();
    let hold = world.build_hold(token);
    route_qp_built(
        &mut world.cm,
        &mut world.connections,
        &mut world.connects,
        hold,
        Ok(built(17, 19)),
        &mut world.actions,
    );
    let state = world.connections.connection(token).unwrap();
    let handle = RdmaConnection::from_registered(state, world.connections.connection_route(token));
    assert_eq!(handle.identity().qp_num(), 17);
    assert_eq!(handle.identity().registry_slot(), token.slot);
    assert_eq!(handle.identity().registration_generation(), token.generation);
    assert_eq!(handle.local_addr().unwrap(), "10.0.0.1:1");
    assert_eq!(handle.peer_addr().unwrap(), "10.0.0.2:2");
    let send: RdmaOperation<u32, u64> = handle.send(5, Some((1, 2)));
    assert_eq!((send.connection, send.kind, send.mr), (token, OperationKind::Send, 5));
    assert_eq!((send.remote, send.range), (None, Some((1, 2))));
    let recv: RdmaOperation<u32, u64> = handle.recv(6, None);
    assert_eq!((recv.kind, recv.mr, recv.remote, recv.range), (OperationKind::Recv, 6, None, None));
    let write: RdmaOperation<u32, u64> = handle.write(7, 70, None);
    assert_eq!((write.kind, write.mr, write.remote), (OperationKind::Write, 7, Some(70)));
    let read: RdmaOperation<u32, u64> = handle.read(8, 80, Some((0, 4)));
    assert_eq!((read.kind, read.remote), (OperationKind::Read, Some(80)));
    assert_eq!((read.connection, read.range), (token, Some((0, 4))));
}

#[test]
fn terminal_stale_listener_drop_cannot_consume_reused_slot_control_capacity() {
    let mut world = world();
    let stale_token = listening(&mut world, 1);
    let stale = world.cm.listeners.get_mut(stale_token).unwrap();
    stale.close.store_if_empty(MemoizedTerminalResult::success());
    let mut stale_close = world.cm.listeners.release(stale_token, true).unwrap().close;

    let config = RdmaListenerConfig::default().backlog(1);
    let live_token = world.cm.listeners.reserve("127.0.0.1:1".into(), config).unwrap();
    assert_ne!(stale_token, live_token);
    assert_eq!(stale_token.slot, live_token.slot);
    assert!(stale_close.release_frontend());
    assert!(!RdmaListener::requests_close(&stale_close, true, true));

    let live = &mut world.cm.listeners.get_mut(live_token).unwrap().close;
    assert!(live.release_frontend());
    assert!(RdmaListener::requests_close(live, true, true));
    assert!(!RdmaListener::requests_close(live, true, false));
}

#[test]
fn parameters_that_cannot_be_stated_fail_a_connect_before_its_setup() {
    let mut world = world();
    let (request, token) = world.start_connect();
    let hold = world.build_hold(token);
    let refused = BuiltQp {
        parameters_check: Err(Error::InvalidConfig("retry count".into())),
        ..built(41, 19)
    };
    let step = route_qp_built(
        &mut world.cm,
        &mut world.connections,
        &mut world.connects,
        hold,
        Ok(refused),
        &mut world.actions,
    );
    assert!(matches!(
        step,
        OutboundStep::Teardown { connection, failed: Some((failed, Error::InvalidConfig(text))) }
            if connection == token && failed == request && text == "retry count"
    ));
    assert!(world.connections.connection(token).is_some());
    assert!(matches!(
        world.connections.outbound_route(token).unwrap().state,
        OutboundState::Closing { .. }
    ));
}

#[test]
fn parameters_that_cannot_be_stated_fail_a_child_before_its_setup() {
    let mut world = world();
    let (_listener, request, token, step) = selected(&mut world);
    let SelectedStep::BuildQp(hold) = step else {
        panic!("a queue pair is built");
    };
    let refused = BuiltQp {
        parameters_check: Err(Error::InvalidConfig("retry count".into())),
        ..built(61, 19)
    };
    let step = selected_qp_built(
        &mut world.cm,
        &mut world.connections,
        &world.accepts,
        hold,
        Ok(refused),
    );
    let SelectedStep::RejectSelected { token: failed, request: waiting, reason, error, target, .. } =
        step
    else {
        panic!("the peer is rejected");
    };
    assert_eq!((failed, waiting), (token, request));
    assert_eq!(reason, InboundRejectReason::SetupFailure);
    assert!(matches!(error, Error::InvalidConfig(text) if text == "retry count"));
    assert_eq!(target.unwrap(), 77);
    assert!(world.connections.connection(token).is_some());
}
