use std::sync::Arc;

use rdma_session::actions::{Action, ReactorActions, REACTOR_ACTION_BUDGET};
use rdma_session::cm::CmSoftwareClass;
use rdma_session::config::RdmaConnectionConfig;
use rdma_session::connection::{CmId, ConnectionPoster};
use rdma_session::deadlines::{DeadlineQueue, SessionDeadline};
use rdma_session::drain::{begin_connection_close_into, close_transitioned, CloseStep};
use rdma_session::error::Error;
use rdma_session::event::{
    CmDispatchRoute, CmEventReject, CmEventSnapshot, CmEventType, EventDisposition, PendingCmEvent,
};
use rdma_session::listener::RdmaListenerConfig;
use rdma_session::progress::SessionReactorSources;
use rdma_session::registry::DeadlineKind;
use rdma_session::requests::{
    empty_connection_setup, AcceptIntent, AcceptRequest, ListenRequest, OutboundRequest,
};
use rdma_session::routes::InboundRejectReason;
use rdma_session::service::{
    dispatch_event, event_disposed, events_served, next_software_work, outbound_start_finished,
    readiness_polled, EventService, EventTurnStep, ReadinessPoll, ReadinessRegistration,
    ReadinessStep, SoftwareWork,
};
use rdma_session::shutdown::{
    service_class, terminalize_into, CmShutdownClass, CmShutdownCursor,
};
use rdma_session::terminal::{MemoizedTerminalResult, TakeOnceResult};
use rdma_session::token::{ConnectionToken, ListenerToken};
use tokio::sync::Semaphore;

const CLASSES: [CmShutdownClass; 5] = [
    CmShutdownClass::PendingOutbound,
    CmShutdownClass::Routes,
    CmShutdownClass::PendingListen,
    CmShutdownClass::Listeners,
    CmShutdownClass::RetainedListeners,
];

fn sources(capacity: u32) -> SessionReactorSources {
    SessionReactorSources::new(
        capacity,
        64,
        Arc::new(Semaphore::new(capacity as usize)),
        16,
        16,
        1_000,
    )
}

fn deadline(token: u64) -> SessionDeadline {
    SessionDeadline { kind: DeadlineKind::ConnectionDrain, token }
}

/// Serves due deadlines of connections that are gone: nothing happens with them.
fn service_due(sources: &mut SessionReactorSources, now: u64, budget: usize) -> usize {
    let actions = ReactorActions::new();
    sources.prepare_due_deadline_snapshot(now);
    let mut consumed = 0;
    while sources.next_due_deadline(consumed, budget, &actions).is_some() {
        consumed += 1;
    }
    consumed
}

#[test]
fn cm_event_arriving_during_clear_is_drained_after_reregister() {
    struct FakeReadiness {
        ready: bool,
        event_available: bool,
        polls: usize,
        clears: usize,
    }

    let mut state = FakeReadiness { ready: true, event_available: false, polls: 0, clears: 0 };
    let (mut poll, mut step) = ReadinessPoll::new(8);
    let result = loop {
        step = match step {
            ReadinessStep::Poll => {
                state.polls += 1;
                poll.polled(if state.ready { Some(Ok(())) } else { None })
            }
            ReadinessStep::Clear => {
                state.clears += 1;
                if state.clears == 1 {
                    state.event_available = true;
                    state.ready = true;
                } else {
                    state.ready = false;
                }
                poll.cleared()
            }
            ReadinessStep::TryOne => {
                let served = state.event_available;
                state.event_available = false;
                poll.tried(Ok(served))
            }
            ReadinessStep::Pending => break None,
            ReadinessStep::Ready(result) => break Some(result),
        };
    };

    assert!(matches!(result, Some(Ok(1))));
    assert_eq!(state.polls, 3);
    assert_eq!(state.clears, 2);
    assert!(!state.event_available);
}

#[test]
fn readiness_polls_end_pending_and_on_errors() {
    let (poll, _) = ReadinessPoll::new(1);
    assert!(matches!(poll.polled(None), ReadinessStep::Pending));
    assert!(matches!(
        poll.polled(Some(Err(Error::WouldBlock))),
        ReadinessStep::Ready(Err(Error::WouldBlock))
    ));
    let (mut poll, _) = ReadinessPoll::new(1);
    assert!(matches!(poll.tried(Ok(true)), ReadinessStep::Ready(Ok(1))));
}

#[test]
fn deadline_ingress_is_deferred_from_due_service_snapshot() {
    let mut progress = sources(4);
    let now = 100;
    progress.tables.connections.schedule_deadline(DeadlineKind::ConnectionDrain, 1, 0, now);
    assert_eq!(progress.due_deadline_count(now), 0);
    assert_eq!(progress.service_deadline_requests(1).unwrap(), 1);
    assert_eq!(service_due(&mut progress, now, 0), 0);
    assert_eq!(service_due(&mut progress, now, 1), 1);
}

#[test]
fn session_deadline_payloads_preserve_equal_time_order() {
    let now = 100;
    let mut deadlines = DeadlineQueue::new();
    deadlines.push(now, deadline(1)).unwrap();
    deadlines
        .push(now, SessionDeadline { kind: DeadlineKind::EngineShutdown, token: 2 })
        .unwrap();

    assert_eq!(deadlines.drain_due(now, 1)[0].token, 1);
    assert_eq!(deadlines.drain_due(now, 1)[0].token, 2);
}

#[test]
fn deadlines_come_in_the_order_of_their_instants() {
    let mut deadlines = DeadlineQueue::new();
    for (at, token) in [(30, 1), (10, 2), (20, 3), (10, 4)] {
        deadlines.push(at, deadline(token)).unwrap();
    }
    assert_eq!(deadlines.next(), Some(10));
    let due: Vec<u64> = deadlines.drain_due(20, 9).iter().map(|entry| entry.token).collect();
    assert_eq!(due, vec![2, 4, 3]);
    assert!(!deadlines.has_due(29));
    assert!(deadlines.has_due(30));
}

#[test]
fn connection_deadline_stays_on_owner_queue_without_two_action_leaves() {
    let mut progress = sources(4);
    progress.ready_deadlines.push_back(deadline(1));
    let mut actions = ReactorActions::new();
    for _ in 0..REACTOR_ACTION_BUDGET - 1 {
        actions.push(Action::Operation);
    }
    assert!(progress.next_due_deadline(0, 1, &actions).is_none());
    assert_eq!(progress.ready_deadlines.len(), 1);
    assert_eq!(progress.ready_deadlines.front().unwrap().token, 1);
}

#[test]
fn split_session_deadline_sources_preserve_the_aggregate_budget() {
    let mut progress = sources(4);
    let now = 100;
    progress.tables.connections.schedule_deadline(DeadlineKind::ConnectionDrain, 1, 0, now);
    let requests = progress.service_deadline_requests(1).unwrap();
    let deadlines = service_due(&mut progress, now, 1);
    assert_eq!(requests + deadlines, 2);
}

#[test]
fn sustained_session_sources_alternate_and_transfer_unused_budget() {
    let mut progress = sources(4);
    let now = 100;
    for token in 10..=11 {
        progress.deadlines.push(now, deadline(token)).unwrap();
    }
    for token in 1..=2 {
        progress.tables.connections.schedule_deadline(DeadlineKind::ConnectionDrain, token, 0, now);
    }

    let requests = progress.service_deadline_requests(2).unwrap();
    let deadlines = service_due(&mut progress, now, 2);
    assert_eq!(requests + deadlines, 4);

    let mut due_only = sources(4);
    for token in 20..=22 {
        due_only.deadlines.push(now, deadline(token)).unwrap();
    }
    assert_eq!(service_due(&mut due_only, now, 3), 3);
}

#[test]
fn deadline_sequence_exhaustion_maps_to_session_configuration_error() {
    let mut progress = sources(4);
    progress.deadlines = DeadlineQueue::with_numbers_left(0);
    progress.tables.connections.schedule_deadline(DeadlineKind::ConnectionDrain, 7, 0, 0);

    let error = match progress.service_deadline_requests(1) {
        Ok(_) => panic!("exhausted session deadline sequence must fail"),
        Err(error) => error,
    };
    assert!(
        matches!(error, Error::InvalidConfig(message) if message.contains("session deadline"))
    );
}

fn install_idle_connections(
    progress: &mut SessionReactorSources,
    count: u32,
) -> Vec<ConnectionToken> {
    (1..=count)
        .map(|qp_num| {
            let reservation = progress.tables.connections.try_reserve().unwrap();
            let poster = ConnectionPoster::Synthetic { qp_num, capabilities: None };
            progress
                .tables
                .connections
                .register(poster, None, None, Some(reservation))
                .ok()
                .unwrap()
        })
        .collect()
}

fn shut_connections(
    progress: &mut SessionReactorSources,
    budget: usize,
    actions: &mut ReactorActions,
) -> usize {
    let mut processed = 0;
    while let Some(found) = progress.next_shutdown_connection(processed, budget, actions) {
        if let Some(token) = found {
            let tables = &mut progress.tables;
            let step = begin_connection_close_into(
                &tables.cm,
                &mut tables.connections,
                &mut tables.accepts,
                token,
                actions,
            );
            if matches!(step, CloseStep::Transition) {
                close_transitioned(&mut tables.connections, token, Ok(()), true, 5, 0, actions);
            }
            progress.end_shutdown_connection(token, Ok(()), actions);
        }
        processed += 1;
    }
    processed
}

/// One turn of a session without a provider; says whether anything was done.
fn turn(
    progress: &mut SessionReactorSources,
    shutting_down: bool,
    outcome: Option<MemoizedTerminalResult>,
    budget: usize,
) -> bool {
    let mut actions = ReactorActions::new();
    let (shutting_down, failure) = progress.begin_turn(shutting_down, outcome, 0);
    let mut done = 0;
    if progress.shutdown_work_pending() {
        let limits = progress.shutdown_snapshot();
        for class in CLASSES {
            done += progress.service_cm_shutdown_class(class, limits.count(class), &mut actions);
        }
        done += shut_connections(progress, budget, &mut actions);
    }
    progress.finish_turn(shutting_down, failure, true);
    done > 0
}

#[test]
fn shutdown_scan_and_final_drain_are_bounded_session_work() {
    let mut progress = sources(64);
    let connections = install_idle_connections(&mut progress, 64);
    let first = turn(&mut progress, true, None, 8);
    let closed = connections
        .iter()
        .filter(|token| progress.tables.connections.close_started(**token))
        .count();
    assert!(closed > 0 && closed < connections.len());
    assert!(first);
    assert!(!progress.can_finish());
}

#[test]
fn idle_shutdown_becomes_finishable_only_from_the_bounded_turn() {
    let mut progress = sources(4);
    let mut ready = false;
    for _ in 0..4 {
        assert!(!ready);
        turn(&mut progress, true, None, 8);
        if progress.can_finish() {
            ready = true;
            break;
        }
    }
    assert!(ready);
    assert!(progress.can_finish());
}

fn terminalized(progress: &SessionReactorSources, tokens: &[ConnectionToken]) -> usize {
    tokens
        .iter()
        .filter(|token| {
            progress.tables.connections.connection(**token).unwrap().close.raw_outcome().is_some()
        })
        .count()
}

#[test]
fn failure_terminalizes_connections_across_bounded_turns() {
    let mut progress = sources(64);
    let connections = install_idle_connections(&mut progress, 64);
    let failure =
        MemoizedTerminalResult::from_error(Error::InvalidConfig("bounded failure".into()));

    let first = turn(&mut progress, true, Some(failure.clone()), 8);
    let ended = terminalized(&progress, &connections);
    assert!(ended > 0 && ended < connections.len());
    assert!(first);

    let mut ready = progress.can_finish();
    for _ in 0..128 {
        if ready {
            break;
        }
        turn(&mut progress, true, Some(failure.clone()), 8);
        ready = progress.can_finish();
    }
    assert!(ready);
    assert_eq!(terminalized(&progress, &connections), 64);
    let shown = progress.tables.connections.connection(connections[5]).unwrap();
    assert!(matches!(
        shown.close.outcome().unwrap().into_result(),
        Err(Error::InvalidConfig(message)) if message == "bounded failure"
    ));
}

#[test]
fn failure_restarts_terminal_scan_after_partial_graceful_shutdown() {
    let mut progress = sources(64);
    let connections = install_idle_connections(&mut progress, 64);
    let graceful = turn(&mut progress, true, None, 8);
    assert!(graceful);
    assert!(progress.shutdown_connection_slot > 0);

    let failure = MemoizedTerminalResult::from_error(Error::InvalidConfig("late failure".into()));
    let mut ready = false;
    for _ in 0..128 {
        turn(&mut progress, true, Some(failure.clone()), 8);
        if progress.can_finish() {
            ready = true;
            break;
        }
    }
    assert!(ready);
    assert!(progress.failure_scan_started);
    assert_eq!(terminalized(&progress, &connections), 64);
}

#[test]
fn a_shutdown_past_its_deadline_is_wedged() {
    let mut progress = sources(4);
    assert!(progress.engine_deadline_reached(0, 0).is_ok());
    assert!(matches!(
        progress.engine_deadline_reached(0, 3),
        Err(Error::EngineWedged { retained_bundles: 0, outstanding_operations: 3, cq_debt: 3 })
    ));
    progress
        .tables
        .cm
        .listeners
        .reserve("127.0.0.1:1".into(), RdmaListenerConfig::default())
        .unwrap();
    assert!(matches!(
        progress.engine_deadline_reached(0, 0),
        Err(Error::EngineWedged { retained_bundles: 1, outstanding_operations: 0, cq_debt: 0 })
    ));
    assert_eq!(progress.listener_drop_steps(), 4);
    assert_eq!(progress.destruction_drop_steps(), 16);
}

fn connect(progress: &mut SessionReactorSources) -> rdma_session::token::RequestToken {
    progress
        .tables
        .connects
        .allocate(OutboundRequest::new(
            "127.0.0.1:7471".into(),
            RdmaConnectionConfig::default(),
            empty_connection_setup(),
        ))
        .ok()
        .unwrap()
}

#[test]
fn shutdown_cancels_what_was_not_started() {
    let mut progress = sources(8);
    let request = connect(&mut progress);
    let reservation = progress.tables.connections.try_reserve().unwrap();
    progress.tables.connections.enqueue_outbound(request, reservation);
    let listener = progress
        .tables
        .cm
        .listeners
        .reserve("127.0.0.1:1".into(), RdmaListenerConfig::default())
        .unwrap();
    let listen = progress
        .tables
        .listens
        .allocate(ListenRequest::new("127.0.0.1:1".into(), RdmaListenerConfig::default()))
        .ok()
        .unwrap();
    progress.tables.cm.enqueue_listen(listener, listen);

    progress.begin_turn(true, None, 0);
    let mut actions = ReactorActions::new();
    assert_eq!(
        progress.service_cm_shutdown_class(CmShutdownClass::PendingOutbound, 4, &mut actions),
        1
    );
    assert_eq!(
        progress.service_cm_shutdown_class(CmShutdownClass::PendingListen, 4, &mut actions),
        1
    );
    assert!(matches!(
        progress.tables.connects.get(request).unwrap().completion.result,
        TakeOnceResult::Ready(Err(Error::DriverShutdown))
    ));
    assert!(matches!(
        progress.tables.listens.get(listen).unwrap().completion.result,
        TakeOnceResult::Ready(Err(Error::DriverShutdown))
    ));
    assert!(progress.tables.cm.listeners.get(listener).is_none());
    assert_eq!(actions.queue.len(), 2);
    assert_eq!(progress.tables.connections.admission_snapshot().live, 0);
}

#[test]
fn shutdown_cancels_the_connects_of_routes() {
    let mut progress = sources(8);
    let request = connect(&mut progress);
    let route = progress.tables.connections.register_outbound().unwrap();
    progress.tables.connections.set_outbound_state(
        route,
        rdma_session::routes::OutboundState::AwaitEstablished { request, connection: route },
    );
    progress.begin_turn(true, None, 0);
    let mut actions = ReactorActions::new();
    let done = progress.service_cm_shutdown_class(CmShutdownClass::Routes, 4, &mut actions);
    assert_eq!(done, 1);
    assert!(progress.shutdown_cm.routes_complete);
    assert_eq!(progress.tables.connections.pop_cancellation(), Some(request));
    assert!(progress.tables.connects.get(request).unwrap().completion.cancelled);
}

fn waiting_listener(progress: &mut SessionReactorSources, waiters: usize) -> ListenerToken {
    let listener = progress
        .tables
        .cm
        .listeners
        .reserve("127.0.0.1:1".into(), RdmaListenerConfig::default().backlog(8))
        .unwrap();
    for _ in 0..waiters {
        let tables = &mut progress.tables;
        let entry = tables.cm.listeners.get_mut(listener).unwrap();
        let permit = entry.admission.try_acquire().unwrap();
        let token = tables.accepts.next_token().unwrap();
        let intent = AcceptIntent::new(RdmaConnectionConfig::default(), empty_connection_setup());
        let request =
            tables.accepts.allocate(AcceptRequest::new(token, intent, permit)).ok().unwrap();
        entry.register_waiter(request, &tables.accepts).unwrap();
    }
    listener
}

#[test]
fn a_failing_shutdown_ends_waiters_one_at_a_time() {
    let mut progress = sources(8);
    let listener = waiting_listener(&mut progress, 3);
    let failure = MemoizedTerminalResult::from_error(Error::InvalidConfig("failed".into()));
    progress.begin_turn(true, Some(failure), 0);
    let mut actions = ReactorActions::new();
    let done = progress.service_cm_shutdown_class(CmShutdownClass::Listeners, 1, &mut actions);
    assert_eq!(done, 1);
    assert_eq!(progress.tables.cm.listeners.get(listener).unwrap().waiters.len(), 2);
    assert!(!progress.shutdown_cm.listeners_complete);
    let done = progress.service_cm_shutdown_class(CmShutdownClass::Listeners, 9, &mut actions);
    assert_eq!(done, 2);
    assert!(!progress.tables.cm.listeners.get(listener).unwrap().has_waiters());
    assert!(progress.shutdown_cm.listeners_complete);
    assert_eq!(progress.tables.cm.listener_work_count(), 1);
}

#[test]
fn terminal_failure_ends_everything_that_waits() {
    let mut progress = sources(8);
    let request = connect(&mut progress);
    let reservation = progress.tables.connections.try_reserve().unwrap();
    progress.tables.connections.enqueue_outbound(request, reservation);
    let listener = waiting_listener(&mut progress, 5);
    let mut actions = ReactorActions::new();
    terminalize_into(&mut progress.tables, &MemoizedTerminalResult::success(), &mut actions);
    assert!(actions.queue.is_empty());
    let failure = MemoizedTerminalResult::from_error(Error::InvalidConfig("failed".into()));
    terminalize_into(&mut progress.tables, &failure, &mut actions);
    assert!(matches!(
        progress.tables.connects.get(request).unwrap().completion.result,
        TakeOnceResult::Ready(Err(Error::InvalidConfig(_)))
    ));
    let entry = progress.tables.cm.listeners.get(listener).unwrap();
    assert!(!entry.has_waiters());
    assert!(entry.is_closing());
    assert_eq!(entry.admission.available_permits(), 8);
    assert_eq!(actions.queue.len(), 1 + 1 + 5);
    assert_eq!(progress.tables.cm.listener_work_count(), 1);
}

#[test]
fn one_connect_is_set_up_at_a_time() {
    let mut progress = sources(8);
    let actions = ReactorActions::new();
    let first = connect(&mut progress);
    let second = connect(&mut progress);
    for request in [first, second] {
        let reservation = progress.tables.connections.try_reserve().unwrap();
        progress.tables.connections.enqueue_outbound(request, reservation);
    }
    let class = CmSoftwareClass::OutboundStart;
    assert!(matches!(
        next_software_work(&mut progress.tables, class, 0, 4, false, &actions),
        Err(Error::InvalidConfig(message))
            if message == "CM pending work requires live engine resources"
    ));
    let work = next_software_work(&mut progress.tables, class, 0, 4, true, &actions).unwrap();
    assert!(matches!(work, Some(SoftwareWork::OutboundStart { request, .. }) if request == first));
    assert!(next_software_work(&mut progress.tables, class, 1, 4, true, &actions)
        .unwrap()
        .is_none());
    outbound_start_finished(&mut progress.tables, false);
    let work = next_software_work(&mut progress.tables, class, 1, 4, true, &actions).unwrap();
    assert!(matches!(work, Some(SoftwareWork::OutboundStart { request, .. }) if request == second));
}

#[test]
fn work_waits_for_room_and_budget() {
    let mut progress = sources(8);
    let request = connect(&mut progress);
    progress.tables.connections.enqueue_cancellation(request);
    let mut full = ReactorActions::new();
    for _ in 0..25 {
        full.push(Action::Operation);
    }
    let class = CmSoftwareClass::Cancellation;
    assert!(next_software_work(&mut progress.tables, class, 0, 1, true, &full).unwrap().is_none());
    let actions = ReactorActions::new();
    assert!(next_software_work(&mut progress.tables, class, 1, 1, true, &actions).unwrap().is_none());
    assert!(matches!(
        next_software_work(&mut progress.tables, class, 0, 1, true, &actions),
        Ok(Some(SoftwareWork::Cancellation(found))) if found == request
    ));
}

#[test]
fn event_turns_report_how_they_left_the_channel() {
    let actions = ReactorActions::new();
    assert!(matches!(
        events_served(2, 2, true, true, true, &actions),
        Ok(EventTurnStep::Finished(turn)) if turn.processed == 2 && !turn.drained
            && turn.registration == ReadinessRegistration::Incomplete
    ));
    assert!(matches!(
        events_served(1, 2, false, true, true, &actions),
        Ok(EventTurnStep::Finished(turn)) if turn.drained
            && turn.registration == ReadinessRegistration::NotRequired
    ));
    assert!(matches!(
        events_served(1, 2, true, true, true, &actions),
        Ok(EventTurnStep::PollReadiness)
    ));
    assert!(matches!(
        events_served(1, 2, true, false, true, &actions),
        Err(Error::InvalidConfig(message)) if message == "readiness engine has no CM AsyncFd"
    ));
    let polled = readiness_polled(1, None).unwrap();
    assert_eq!(polled.registration, ReadinessRegistration::RegisteredAndRechecked);
    let polled = readiness_polled(1, Some(Ok(1))).unwrap();
    assert_eq!((polled.processed, polled.drained), (2, false));
}

#[test]
fn events_go_to_their_owners() {
    let snapshot = CmEventSnapshot {
        event_type: CmEventType::ConnectRequest,
        status: 0,
        id: 77,
        listen_id: 33,
        context_key: 0,
    };
    let mut rejected = 0;
    let nobody = PendingCmEvent { snapshot, route: Err(CmEventReject::Unknown) };
    assert_eq!(
        dispatch_event(&mut rejected, nobody),
        EventService::Nobody { raw_id: 77, reason: InboundRejectReason::ListenerClosed }
    );
    assert_eq!(rejected, 1);
    let listener = ListenerToken { slot: 2, generation: 1 };
    let request = PendingCmEvent { snapshot, route: Ok(CmDispatchRoute::Listener(listener)) };
    assert_eq!(dispatch_event(&mut rejected, request), EventService::ConnectRequest(listener));
    event_disposed(&mut rejected, EventDisposition::Rejected(CmEventReject::Unexpected));
    event_disposed(&mut rejected, EventDisposition::Rejected(CmEventReject::Duplicate));
    let mut full = u64::MAX;
    event_disposed(&mut full, EventDisposition::Rejected(CmEventReject::Stale));
    assert_eq!(full, 0);
    event_disposed(&mut rejected, EventDisposition::IgnoredAfterShutdown);
    assert_eq!(rejected, 2);
}

#[test]
fn a_failing_shutdown_keeps_identifiers_that_wait_for_destruction() {
    let mut progress = sources(4);
    let listener = waiting_listener(&mut progress, 1);
    let cm_id = |raw_id| CmId { raw_id, context_key: raw_id, context_token: None };
    progress.tables.cm.defer_cm_id(cm_id(5));
    progress.tables.cm.defer_listener_cm_id(listener, cm_id(6));
    progress.tables.cm.listeners.get_mut(listener).unwrap().mark_cm_destruction_pending();
    let failure = MemoizedTerminalResult::from_error(Error::TransportClosed);
    progress.begin_turn(true, Some(failure), 0);
    let mut actions = ReactorActions::new();
    for _ in 0..4 {
        for class in CLASSES {
            progress.service_cm_shutdown_class(class, 4, &mut actions);
        }
    }
    assert_eq!(progress.tables.cm.destruction_work_count(), 2);
    assert!(matches!(
        progress.tables.cm.listeners.get(listener).unwrap().close.outcome().unwrap().into_result(),
        Err(Error::TransportClosed)
    ));
    assert!(actions.queue.len() <= REACTOR_ACTION_BUDGET);
}

#[test]
fn an_orderly_end_of_listeners_takes_a_success() {
    let mut progress = sources(4);
    let listener = waiting_listener(&mut progress, 1);
    let mut cursor = CmShutdownCursor::new();
    let mut actions = ReactorActions::new();
    let done = service_class(
        &mut progress.tables,
        &MemoizedTerminalResult::success(),
        false,
        &mut cursor,
        CmShutdownClass::Listeners,
        1,
        &mut actions,
    );
    assert_eq!(done, 1);
    let entry = progress.tables.cm.listeners.get(listener).unwrap();
    assert!(entry.is_closing());
    assert!(matches!(entry.admission.close_reason, Some(Error::DriverShutdown)));
    assert_eq!(entry.waiters.len(), 1);
}
