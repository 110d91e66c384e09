use std::future::Future;
use std::pin::Pin;
use std::sync::Arc;
use std::task::{Context, Poll, Waker};

use rdma_session::actions::{Action, ReactorActions, REACTOR_ACTION_BUDGET};
use rdma_session::config::RdmaConnectionConfig;
use rdma_session::error::Error;
use rdma_session::listener::{
    complete_accept, with_validated_listener_backlog, IncomingChild, ListenerAction, ListenerEntry,
    ListenerRegistry, RdmaListenerConfig, DEFAULT_LISTENER_BACKLOG,
};
use rdma_session::requests::{
    empty_connection_setup, AcceptIntent, AcceptRequest, ListenRequest,
};
use rdma_session::routes::InboundRejectReason;
use rdma_session::session::admit_accept;
use rdma_session::slots::{Lookup, SlotRegistry};
use rdma_session::terminal::{MemoizedTerminalResult, TakeOnceResult};
use rdma_session::token::{ConnectionToken, ListenerToken, RequestToken};
use tokio::sync::OwnedSemaphorePermit;

type Requests = SlotRegistry<AcceptRequest>;

fn entry(backlog: usize) -> ListenerEntry {
    let mut entry = ListenerEntry::creating(
        ListenerToken { slot: 0, generation: 1 },
        "127.0.0.1:0".into(),
        RdmaListenerConfig::default().backlog(backlog),
    );
    entry.local_addr = Some("127.0.0.1:1".into());
    entry
}

fn request(requests: &mut Requests, listener: &ListenerEntry) -> RequestToken {
    let permit = listener.admission.try_acquire().expect("listener test has an accept permit");
    let token = requests.next_token().expect("request table has room");
    let intent = AcceptIntent::new(RdmaConnectionConfig::default(), empty_connection_setup());
    requests.allocate(AcceptRequest::new(token, intent, permit)).ok().unwrap()
}

fn child(slot: u32) -> IncomingChild {
    IncomingChild::new(ConnectionToken { slot, generation: 1 })
}

fn cancel(requests: &mut Requests, request: RequestToken) {
    requests.get_mut(request).unwrap().cancel();
}

fn deliver(requests: &mut Requests, request: RequestToken) {
    requests.get_mut(request).unwrap().delivered = true;
}

fn owns_permit(requests: &Requests, request: RequestToken) -> bool {
    requests.get(request).unwrap().permit.is_some()
}

fn accept_wakes(actions: &ReactorActions) -> usize {
    actions.queue.iter().filter(|action| matches!(action, Action::WakeAccept { .. })).count()
}

#[test]
fn terminal_listener_overflow_stays_on_authoritative_waiter_queue() {
    let mut listener = entry(64);
    let mut table: Requests = SlotRegistry::new(64);
    let requests = (0..40)
        .map(|_| {
            let request = request(&mut table, &listener);
            listener.register_waiter(request, &table).unwrap();
            request
        })
        .collect::<Vec<_>>();
    let outcome = MemoizedTerminalResult::from_error(Error::DriverShutdown);

    let mut first = ReactorActions::new();
    assert_eq!(
        listener.terminalize_waiters_into(&outcome, &mut table, &mut first, 32),
        REACTOR_ACTION_BUDGET - 1
    );
    assert_eq!(first.queue.len(), REACTOR_ACTION_BUDGET);
    assert_eq!(
        requests
            .iter()
            .filter(|request| matches!(
                table.get(**request).unwrap().result,
                TakeOnceResult::Ready(Err(Error::DriverShutdown))
            ))
            .count(),
        REACTOR_ACTION_BUDGET - 1
    );
    assert_eq!(accept_wakes(&first), REACTOR_ACTION_BUDGET - 1);

    let mut second = ReactorActions::new();
    assert_eq!(listener.terminalize_waiters_into(&outcome, &mut table, &mut second, 32), 9);
    assert_eq!(second.queue.len(), 9);
    assert_eq!(accept_wakes(&first) + accept_wakes(&second), 40);
}

#[test]
fn accept_failure_mutates_authoritative_queue_before_detached_wake() {
    let mut listener = entry(4);
    let mut table: Requests = SlotRegistry::new(4);
    let request = request(&mut table, &listener);
    listener.register_waiter(request, &table).unwrap();
    cancel(&mut table, request);

    let ListenerAction::CancelledBeforeSelection(selected) = listener.next_action(&mut table)
    else {
        panic!("authoritative listener queue did not select the cancelled request")
    };
    assert_eq!(selected, request);
    assert!(listener.waiters.is_empty());

    let mut actions = ReactorActions::new();
    complete_accept(&mut table, selected, Err(Error::DriverShutdown), &mut actions);
    assert!(matches!(
        table.get(request).unwrap().result,
        TakeOnceResult::Ready(Err(Error::DriverShutdown))
    ));
    assert_eq!(accept_wakes(&actions), 1);
}

#[test]
fn accept_success_and_listener_close_publish_only_after_state_commit() {
    let mut listener = entry(1);
    let mut table: Requests = SlotRegistry::new(1);
    let token = request(&mut table, &listener);
    let mut actions = ReactorActions::new();
    let connection = ConnectionToken { slot: 3, generation: 1 };
    table.get_mut(token).unwrap().complete_success_into(connection, &mut actions);
    assert!(matches!(table.get(token).unwrap().result, TakeOnceResult::Ready(Ok(_))));

    let before_close = actions.queue.len();
    listener.finish_close_into(None, &mut actions);
    assert!(listener.close.outcome().unwrap().is_success());
    assert_eq!(actions.queue.len(), before_close + 1);
    assert_eq!(accept_wakes(&actions), 1);
    assert!(matches!(table.get_mut(token).unwrap().take_result(), Some(Ok(taken)) if taken == connection));
}

#[test]
fn cancellation_winning_success_publication_retains_the_selected_connection() {
    let listener = entry(1);
    let mut table: Requests = SlotRegistry::new(1);
    let token = request(&mut table, &listener);
    let request = table.get_mut(token).unwrap();
    request.cancel();

    let mut actions = ReactorActions::new();
    request.complete_success_into(ConnectionToken { slot: 0, generation: 1 }, &mut actions);
    assert!(request.has_undelivered_success());
    assert_eq!(actions.queue.len(), 0);

    let failure = request.claim_undelivered_failure_into(Error::DriverShutdown, &mut actions);
    assert!(!failure.delivered);
    assert!(failure.connection.is_some());
    assert!(matches!(request.take_result(), Some(Err(Error::DriverShutdown))));
}

#[test]
fn cancellation_after_success_wake_retains_the_selected_connection() {
    let listener = entry(1);
    let mut table: Requests = SlotRegistry::new(1);
    let token = request(&mut table, &listener);
    let request = table.get_mut(token).unwrap();

    let mut published = ReactorActions::new();
    request.complete_success_into(ConnectionToken { slot: 0, generation: 1 }, &mut published);
    assert_eq!(accept_wakes(&published), 1);

    request.cancel();
    assert!(request.has_undelivered_success());
    let mut cancelled = ReactorActions::new();
    let failure = request.claim_undelivered_failure_into(Error::DriverShutdown, &mut cancelled);
    assert!(!failure.delivered);
    assert!(failure.connection.is_some());
    assert!(matches!(request.take_result(), Some(Err(Error::DriverShutdown))));
}

#[test]
fn waiter_observers_do_not_retain_listen_or_accept_records() {
    let mut listens: SlotRegistry<ListenRequest> = SlotRegistry::new(1);
    let listen = listens
        .allocate(ListenRequest::new("127.0.0.1:1".into(), RdmaListenerConfig::default()))
        .ok()
        .unwrap();
    assert!(listens.get_mut(listen).unwrap().completion.complete(Err(Error::DriverShutdown)));
    let mut released = listens.release(listen, true).unwrap();
    assert!(listens.get(listen).is_none());
    assert!(matches!(released.completion.take_result(), Some(Err(Error::DriverShutdown))));

    let listener = entry(1);
    let mut accepts: Requests = SlotRegistry::new(1);
    let accept = request(&mut accepts, &listener);
    let mut actions = ReactorActions::new();
    complete_accept(&mut accepts, accept, Err(Error::DriverShutdown), &mut actions);
    let mut released = accepts.release(accept, true).unwrap();
    assert!(accepts.get(accept).is_none());
    assert!(matches!(released.take_result(), Some(Err(Error::DriverShutdown))));
}

#[test]
fn backlog_setter_is_deferred_and_exactly_bounded() {
    let zero = RdmaListenerConfig::default().backlog(0);
    assert_eq!(zero.backlog_capacity(), 0);
    assert!(zero.validate().is_err());

    let maximum = RdmaListenerConfig::default().backlog(4_096);
    assert_eq!(maximum.backlog_capacity(), 4_096);
    maximum.validate().unwrap();

    let too_large = RdmaListenerConfig::default().backlog(4_097);
    assert_eq!(too_large.backlog_capacity(), 4_097);
    assert!(too_large.validate().is_err());
}

#[test]
fn refused_backlogs_are_named() {
    let error = RdmaListenerConfig::default().backlog(4_097).validate().unwrap_err();
    assert!(matches!(
        error,
        Error::InvalidConfig(message) if message == "listener backlog 4097 is outside 1..=4096"
    ));
}

#[test]
fn default_backlog_matches_the_contract() {
    assert_eq!(
        RdmaListenerConfig::default().backlog_capacity(),
        DEFAULT_LISTENER_BACKLOG
    );
}

#[test]
fn waiter_registration_reports_the_listener_failure_context() {
    let mut listener = entry(1);
    let mut table: Requests = SlotRegistry::new(1);
    let request = request(&mut table, &listener);
    listener.fail(Error::InvalidConfig("listener CM close failed".into()));

    let error = listener.register_waiter(request, &table).unwrap_err();
    assert!(matches!(error, Error::InvalidConfig(_)));
    assert!(error.to_string().contains("listener CM close failed"));
    assert!(
        listener
            .admission
            .close_error(&listener.close)
            .to_string()
            .contains("listener CM close failed")
    );
}

#[test]
fn terminalization_publishes_accept_admission_error_before_close() {
    let mut listener = entry(1);
    let mut table: Requests = SlotRegistry::new(1);
    let outcome = MemoizedTerminalResult::from_error(Error::DriverShutdown);
    let mut actions = ReactorActions::new();

    assert_eq!(
        listener.terminalize_waiters_into(&outcome, &mut table, &mut actions, 0),
        0
    );
    assert!(matches!(
        listener.admission.close_error(&listener.close),
        Error::DriverShutdown
    ));
}

#[test]
fn waiter_registration_and_child_arrival_order_are_exact() {
    let mut listener = entry(2);
    let mut table: Requests = SlotRegistry::new(2);
    let first = request(&mut table, &listener);
    let second = request(&mut table, &listener);
    listener.register_waiter(first, &table).unwrap();
    listener.register_waiter(second, &table).unwrap();

    assert!(listener.admit_child(child(0), &table).is_none());
    match listener.next_action(&mut table) {
        ListenerAction::ProcessSelected { request, .. } => {
            assert_eq!(request, first);
        }
        _ => panic!("oldest waiter must receive the oldest child"),
    }

    assert!(listener.admit_child(child(1), &table).is_none());
    assert!(matches!(listener.next_action(&mut table), ListenerAction::Idle));
    assert!(listener.finish_selected_request(first, &mut table));
    match listener.next_action(&mut table) {
        ListenerAction::ProcessSelected { request, child } => {
            assert_eq!(request, second);
            assert_eq!(child.into_token().slot, 1);
        }
        _ => panic!("later waiter overtook the selected pair"),
    }
}

fn selected(route: u64) -> (ListenerEntry, Requests, RequestToken) {
    let mut listener = entry(1);
    let mut table: Requests = SlotRegistry::new(1);
    let request = request(&mut table, &listener);
    listener.register_waiter(request, &table).unwrap();
    assert!(listener.admit_child(child(0), &table).is_none());
    assert!(matches!(
        listener.next_action(&mut table),
        ListenerAction::ProcessSelected { .. }
    ));
    table.get_mut(request).unwrap().route_token = route;
    listener.route_selected(request, route).unwrap();
    (listener, table, request)
}

#[test]
fn delivered_accept_defensively_releases_selection_after_route_retirement() {
    let (mut listener, mut table, request) = selected(42);
    assert!(listener.selected.is_some());
    deliver(&mut table, request);
    assert!(matches!(
        listener.next_action(&mut table),
        ListenerAction::AcknowledgeDelivery { route: 42, .. }
    ));
    assert!(listener.finish_selected_route(42, &mut table));
    assert!(listener.selected.is_none());
    assert!(!owns_permit(&table, request));
}

#[test]
fn delivered_accept_wins_over_late_waiter_cancellation() {
    let (mut listener, mut table, request) = selected(43);
    deliver(&mut table, request);
    cancel(&mut table, request);

    assert!(matches!(
        listener.next_action(&mut table),
        ListenerAction::AcknowledgeDelivery { route: 43, .. }
    ));
    assert!(listener.selected_is_some());
    assert_eq!(listener.child_slots_used(), 1);
    assert_eq!(listener.admission.available_permits(), 0);
    assert!(owns_permit(&table, request));

    assert!(listener.finish_selected_route(43, &mut table));
    assert!(!listener.selected_is_some());
    assert_eq!(listener.child_slots_used(), 0);
    assert_eq!(listener.admission.available_permits(), 1);
    assert!(!owns_permit(&table, request));
}

#[test]
fn delivered_accept_wins_over_late_listener_close() {
    let (mut listener, mut table, request) = selected(44);
    deliver(&mut table, request);
    listener.admission.close();

    assert!(matches!(
        listener.next_action(&mut table),
        ListenerAction::AcknowledgeDelivery { route: 44, .. }
    ));
    assert!(listener.selected_is_some());
    assert_eq!(listener.child_slots_used(), 1);
    assert!(owns_permit(&table, request));
    assert!(listener.finish_selected_route(44, &mut table));
    assert!(!listener.selected_is_some());
    assert_eq!(listener.child_slots_used(), 0);
    assert!(!owns_permit(&table, request));
}

#[test]
fn armed_route_close_suppresses_delivered_listener_requeue() {
    let (mut listener, mut table, request) = selected(45);
    deliver(&mut table, request);
    assert!(listener.has_work(&table));

    assert!(listener.mark_selected_route_closing(45));
    assert!(!listener.has_work(&table));
    assert!(listener.selected_is_some());
    assert_eq!(listener.child_slots_used(), 1);
    assert!(owns_permit(&table, request));
    assert!(listener.finish_selected_route(45, &mut table));
    assert!(!listener.selected_is_some());
    assert_eq!(listener.child_slots_used(), 0);
    assert!(!owns_permit(&table, request));
}

#[test]
fn cancellation_before_selection_removes_only_that_waiter() {
    let mut listener = entry(2);
    let mut table: Requests = SlotRegistry::new(2);
    let cancelled = request(&mut table, &listener);
    let survivor = request(&mut table, &listener);
    listener.register_waiter(cancelled, &table).unwrap();
    listener.register_waiter(survivor, &table).unwrap();
    cancel(&mut table, cancelled);

    match listener.next_action(&mut table) {
        ListenerAction::CancelledBeforeSelection(request) => {
            assert_eq!(request, cancelled);
        }
        _ => panic!("cancelled waiter was not removed before selection"),
    }
    assert!(listener.admit_child(child(0), &table).is_none());
    match listener.next_action(&mut table) {
        ListenerAction::ProcessSelected { request, .. } => {
            assert_eq!(request, survivor);
        }
        _ => panic!("surviving waiter lost its registration order"),
    }
}

#[test]
fn userspace_backlog_and_listener_state_are_independent() {
    let mut first = entry(2);
    let mut second = entry(2);
    let mut table: Requests = SlotRegistry::new(4);
    for listener in [&mut first, &mut second] {
        assert!(listener.admit_child(child(0), &table).is_none());
        assert!(listener.admit_child(child(1), &table).is_none());
        let overflow = listener.admit_child(child(2), &table);
        assert!(matches!(overflow, Some((_, InboundRejectReason::BacklogFull))));
    }
    let first_waiter = request(&mut table, &first);
    first.register_waiter(first_waiter, &table).unwrap();
    assert!(matches!(
        first.next_action(&mut table),
        ListenerAction::ProcessSelected { .. }
    ));
    assert!(matches!(
        second.admit_child(child(3), &table),
        Some((_, InboundRejectReason::BacklogFull))
    ));
}

#[test]
fn cancellation_after_accept_blocks_later_selection_until_close_disposition() {
    let mut listener = entry(2);
    let mut table: Requests = SlotRegistry::new(2);
    let first = request(&mut table, &listener);
    let second = request(&mut table, &listener);
    listener.register_waiter(first, &table).unwrap();
    listener.register_waiter(second, &table).unwrap();
    assert!(listener.admit_child(child(0), &table).is_none());
    assert!(listener.admit_child(child(1), &table).is_none());
    match listener.next_action(&mut table) {
        ListenerAction::ProcessSelected { request, .. } => {
            assert_eq!(request, first);
        }
        _ => panic!("first pair was not selected"),
    }
    listener.route_selected(first, 7).unwrap();
    cancel(&mut table, first);
    assert!(matches!(
        listener.next_action(&mut table),
        ListenerAction::CancelAfterAccept { route: 7, .. }
    ));
    assert!(matches!(listener.next_action(&mut table), ListenerAction::Idle));
    assert!(listener.finish_selected_route(7, &mut table));
    match listener.next_action(&mut table) {
        ListenerAction::ProcessSelected { request, .. } => {
            assert_eq!(request, second);
        }
        _ => panic!("later waiter did not remain blocked through selected close"),
    }
}

#[test]
fn close_actions_dispose_each_queue_owner_once_before_finalization() {
    let mut listener = entry(2);
    let mut table: Requests = SlotRegistry::new(2);
    let selected = request(&mut table, &listener);
    let pending = request(&mut table, &listener);
    listener.register_waiter(selected, &table).unwrap();
    listener.register_waiter(pending, &table).unwrap();
    assert!(listener.admit_child(child(0), &table).is_none());
    assert!(listener.admit_child(child(1), &table).is_none());
    listener.request_close();

    match listener.next_action(&mut table) {
        ListenerAction::FailUnselected(request) => {
            assert_eq!(request, pending);
        }
        _ => panic!("close must fail the unselected waiter first"),
    }
    assert!(matches!(
        listener.next_action(&mut table),
        ListenerAction::RejectChild(_, InboundRejectReason::ListenerClosed)
    ));
    listener.release_unpaired_child_slot();
    match listener.next_action(&mut table) {
        ListenerAction::RejectSelected { request, .. } => {
            assert_eq!(request, selected);
            assert!(listener.finish_selected_request(request, &mut table));
        }
        _ => panic!("close must reject the selected pair exactly once"),
    }
    assert!(matches!(
        listener.next_action(&mut table),
        ListenerAction::FinalizeClose
    ));
    assert!(matches!(listener.next_action(&mut table), ListenerAction::Idle));
    assert_eq!(listener.child_slots_used(), 0);
    assert_eq!(listener.admission.available_permits(), 2);
}

#[test]
fn listener_registry_capacity_generation_and_retirement_are_exact() {
    let address = || String::from("127.0.0.1:1");
    let config = RdmaListenerConfig::default().backlog(1);
    let mut registry = ListenerRegistry::new(2);
    let first = registry.reserve(address(), config).unwrap();
    assert_eq!(ListenerToken::decode(first.encode()), first);
    let second = registry.reserve(address(), config).unwrap();
    assert_eq!(registry.live(), 2);
    assert!(!registry.has_capacity());
    assert!(matches!(
        registry.reserve(address(), config),
        Err(Error::CapacityExhausted)
    ));

    registry.release(first, false).unwrap();
    let reused = registry.reserve(address(), config).unwrap();
    assert_eq!(reused.slot, first.slot);
    assert_eq!(reused.generation, first.generation + 1);
    assert!(matches!(registry.lookup(first), Lookup::Stale));

    let exhausted = registry.advance_generation(reused, u32::MAX).unwrap();
    registry.release(exhausted, true).unwrap();
    assert_eq!(registry.retired(), 1);
    assert!(matches!(registry.lookup(exhausted), Lookup::Duplicate));
    registry.release(second, true).unwrap();
    assert_eq!(registry.free(), 1);
    let remaining = registry.reserve(address(), config).unwrap();
    assert_ne!(remaining.slot, exhausted.slot);
}

#[test]
fn listener_registry_rejects_stale_token_and_raw_identity() {
    let address = || String::from("127.0.0.1:1");
    let config = RdmaListenerConfig::default().backlog(1);
    let mut registry = ListenerRegistry::new(1);
    let first = registry.reserve(address(), config).unwrap();
    let cm_id = rdma_session::connection::CmId {
        raw_id: 41,
        context_key: 51,
        context_token: Some(first.encode()),
    };
    assert!(registry.activate(first, address(), cm_id, 41, 51).is_ok());
    assert_eq!(registry.token_for_raw(41), Some(first));
    registry.release(first, false).unwrap();
    assert_eq!(registry.token_for_raw(41), None);

    let second = registry.reserve(address(), config).unwrap();
    assert_ne!(first, second);
    assert!(matches!(registry.lookup(first), Lookup::Stale));
    assert!(matches!(registry.lookup(second), Lookup::Occupied(_)));
}

#[test]
fn accept_wake_rechecks_listener_close_before_command_registration() {
    let mut listener = entry(1);
    let held = listener.admission.try_acquire().unwrap();
    assert!(listener.admission.try_acquire().is_none());
    listener.admission.close_with_error(Error::InvalidConfig(
        "listener closed during accept wake".into(),
    ));
    assert!(matches!(
        admit_accept(Ok(()), Some(held), None, &listener.admission, &listener.close),
        Err(Error::InvalidConfig(message))
            if message.contains("listener closed during accept wake")
    ));
    assert!(listener.admission.try_acquire().is_none());
}

#[test]
fn accept_request_and_child_slot_transfer_together_through_selection() {
    let mut listener = entry(1);
    let mut table: Requests = SlotRegistry::new(1);
    let request = request(&mut table, &listener);
    listener.register_waiter(request, &table).unwrap();
    assert!(listener.admit_child(child(0), &table).is_none());
    assert_eq!(listener.admission.available_permits(), 0);
    assert_eq!(listener.child_slots_used(), 1);
    assert!(listener.selected_is_some());
    assert!(matches!(
        listener.next_action(&mut table),
        ListenerAction::ProcessSelected { .. }
    ));
    listener.route_selected(request, 9).unwrap();
    cancel(&mut table, request);
    assert!(matches!(
        listener.next_action(&mut table),
        ListenerAction::CancelAfterAccept { route: 9, .. }
    ));
    assert!(listener.finish_selected_route(9, &mut table));
    assert_eq!(listener.admission.available_permits(), 1);
    assert_eq!(listener.child_slots_used(), 0);
    assert!(!listener.selected_is_some());
    assert!(!owns_permit(&table, request));
}

#[test]
fn terminal_failure_releases_accept_permits_and_retains_child_owners_once() {
    let mut listener = entry(2);
    let mut table: Requests = SlotRegistry::new(2);
    let selected = request(&mut table, &listener);
    let pending = request(&mut table, &listener);
    listener.register_waiter(selected, &table).unwrap();
    listener.register_waiter(pending, &table).unwrap();
    listener.admit_child(child(0), &table);
    listener.admit_child(child(1), &table);
    assert!(matches!(
        listener.next_action(&mut table),
        ListenerAction::ProcessSelected { .. }
    ));
    listener.route_selected(selected, 11).unwrap();

    let mut actions = ReactorActions::new();
    let outcome = MemoizedTerminalResult::from_error(Error::DriverShutdown);
    assert_eq!(
        listener.terminalize_waiters_into(&outcome, &mut table, &mut actions, 8),
        2
    );
    assert!(!owns_permit(&table, selected));
    assert!(!owns_permit(&table, pending));
    assert_eq!(listener.admission.available_permits(), 2);
    assert_eq!(listener.child_slots_used(), 2);
    assert!(listener.selected_is_some());
    assert_eq!(listener.children.len(), 1);
}

#[test]
fn provider_backlog_seam_receives_the_exact_public_value() {
    let config = RdmaListenerConfig::default().backlog(37);
    let mut observed = None;
    with_validated_listener_backlog(&config, |backlog| observed = Some(backlog)).unwrap();
    assert_eq!(observed, Some(37));
    assert_eq!(config.backlog_capacity(), 37);

    let mut called = false;
    assert!(
        with_validated_listener_backlog(&RdmaListenerConfig::default().backlog(0), |_| {
            called = true;
        })
        .is_err()
    );
    assert!(!called);
}

#[test]
fn a_closed_admission_hands_out_no_permit() {
    let mut listener = entry(3);
    assert_eq!(listener.admission.available_permits(), 3);
    let held = listener.admission.try_acquire().unwrap();
    assert_eq!(listener.admission.available_permits(), 2);
    drop(held);
    assert_eq!(listener.admission.available_permits(), 3);
    listener.admission.close();
    assert!(listener.admission.try_acquire().is_none());
    assert!(!listener.admission.is_open());
}

#[test]
fn selection_errors_name_what_changed() {
    let mut listener = entry(1);
    let lost = listener.route_selected(RequestToken { slot: 0, generation: 1 }, 5).unwrap_err();
    assert!(matches!(
        lost,
        Error::InvalidConfig(message) if message == "listener lost its selected pair during setup"
    ));
    let (mut listener, _table, _request) = selected(6);
    let changed = listener.route_selected(RequestToken { slot: 7, generation: 1 }, 5).unwrap_err();
    assert!(matches!(
        changed,
        Error::InvalidConfig(message) if message == "listener selected pair changed during setup"
    ));
}

#[test]
fn a_second_close_or_failure_changes_nothing() {
    let mut listener = entry(2);
    let mut actions = ReactorActions::new();
    assert!(listener.fail(Error::InvalidConfig("first".into())));
    assert!(!listener.fail(Error::InvalidConfig("second".into())));
    assert!(!listener.request_close());
    assert!(matches!(listener.close_error(), Error::InvalidConfig(text) if text == "first"));
    listener.finish_close_into(None, &mut actions);
    listener.finish_close_into(Some(Error::DriverShutdown), &mut actions);
    assert!(matches!(
        listener.close.outcome().unwrap().into_result(),
        Err(Error::InvalidConfig(text)) if text == "first"
    ));
}

#[test]
fn a_child_that_is_turned_away_gives_its_slot_back() {
    let mut requests = Requests::new(4);
    let mut listener = entry(2);
    assert!(listener.admit_child(child(1), &requests).is_none());
    assert!(listener.admit_child(child(2), &requests).is_none());
    listener.request_close();
    assert!(matches!(
        listener.next_action(&mut requests),
        ListenerAction::RejectChild(_, InboundRejectReason::ListenerClosed)
    ));
    assert_eq!(listener.child_slots_used(), 2);
    listener.release_unpaired_child_slot();
    assert_eq!(listener.child_slots_used(), 1);
}

type Acquire = Pin<Box<dyn Future<Output = Option<OwnedSemaphorePermit>>>>;

fn acquire(listener: &ListenerEntry) -> Acquire {
    let permits = Arc::clone(&listener.admission.permits);
    Box::pin(async move { permits.acquire_owned().await.ok() })
}

fn poll(acquire: &mut Acquire) -> Poll<Option<OwnedSemaphorePermit>> {
    acquire.as_mut().poll(&mut Context::from_waker(Waker::noop()))
}

#[test]
fn accept_permits_are_fifo_and_do_not_barge() {
    let listener = entry(1);
    let held = listener.admission.try_acquire().unwrap();
    let mut first = acquire(&listener);
    assert!(poll(&mut first).is_pending());
    let mut second = acquire(&listener);
    assert!(poll(&mut second).is_pending());
    drop(held);
    assert!(listener.admission.try_acquire().is_none());
    assert!(poll(&mut second).is_pending());
    let Poll::Ready(Some(permit)) = poll(&mut first) else {
        panic!("the first waiter comes first");
    };
    assert!(poll(&mut second).is_pending());
    drop(permit);
    let Poll::Ready(Some(permit)) = poll(&mut second) else {
        panic!("the second waiter comes next");
    };
    drop(permit);
    assert_eq!(listener.admission.available_permits(), 1);
}

#[test]
fn cancelled_accept_head_is_removed_and_release_wakes_next() {
    let listener = entry(1);
    let held = listener.admission.try_acquire().unwrap();
    let mut first = acquire(&listener);
    assert!(poll(&mut first).is_pending());
    let mut second = acquire(&listener);
    assert!(poll(&mut second).is_pending());
    drop(first);
    drop(held);
    let Poll::Ready(Some(permit)) = poll(&mut second) else {
        panic!("next waiter is woken");
    };
    assert_eq!(listener.admission.available_permits(), 0);
    drop(permit);
    assert_eq!(listener.admission.available_permits(), 1);
}

#[test]
fn the_backlog_is_the_number_of_accept_permits() {
    let mut listener = entry(2);
    assert_eq!(listener.admission.token, listener.token);
    assert_eq!(listener.admission.available_permits(), 2);
    let first = listener.admission.try_acquire().unwrap();
    let second = listener.admission.try_acquire().unwrap();
    assert!(listener.admission.try_acquire().is_none());
    assert!(Arc::ptr_eq(first.semaphore(), &listener.admission.permits));
    listener.request_close();
    assert!(Arc::ptr_eq(second.semaphore(), &listener.admission.permits));
}
