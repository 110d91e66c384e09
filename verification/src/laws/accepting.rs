//! What an accept owes, from the peer's request to its end.

use vstd::prelude::*;

use crate::accept::{
    accept_gate, accept_target, action_served, child_admitted, child_refusal, child_rejected,
    child_routed, failed_and_dropped, failed_and_queued, inbound_identified, inbound_quarantined,
    listener_stepped, pair_begun, pair_routed, pending_child, permits_left, route_closing,
    selected_child_gone, selected_failed, setup_reject_reason, setup_rejection, slot_released,
    unreserved_reason, with_context, work_looked_for, AcceptHold, ListenerStep, SelectedRejection,
    SelectedStep,
};
use crate::actions::{Action, IoTerminalEvent};
use crate::admission::ConnectionReservation;
use crate::cm::{CmView, ContextRoute, PendingCmDestruction};
use crate::connection::{CmId, ConnectionPoster};
use crate::error::Error;
use crate::event::{CmEventReject, EventDisposition};
use crate::inbound::{
    close_prepared, close_prepared_actions, close_prepared_requests, inbound_disconnected,
    inbound_established, inbound_failed, route_cancelled, waiting_accept, InboundStep,
};
use crate::laws::listening::{handed_out, takes_more, withdrawn};
use crate::laws::terms::{accept_answered, accept_failed_over, others_kept, pair_ended};
use crate::listener::{IncomingChild, ListenerAction, SelectedAccept};
use crate::registry::{Lifecycle, RegistryView};
use crate::requests::AcceptRequest;
use crate::routes::{InboundPeerState, InboundRejectReason, InboundState};
use crate::slots::SlotsView;
use crate::terminal::{MemoizedTerminalResult, TakeOnceResult};
use crate::token::{CmRouteToken, ConnectionToken, ListenerToken, RequestToken, SlotToken};

verus! {

/// The reason with which the accepts of a listener end while its route closes.
pub open spec fn reason_to_end(cm: CmView, listener: ListenerToken) -> Error {
    if cm.listeners.has(listener) && !takes_more(cm.listeners.entry(listener)@) {
        match cm.listeners.entry(listener)@.failure {
            Some(error) => error,
            None => Error::TransportClosed,
        }
    } else {
        Error::DriverShutdown
    }
}

/// The waiter of a held request is told, whatever it had been told before.
pub open spec fn accept_always_told(
    requests: SlotsView<AcceptRequest>,
    request: RequestToken,
    actions: Seq<Action>,
    actions_after: Seq<Action>,
) -> bool {
    actions_after =~= if requests.entries.contains_key(request) {
        actions + seq![Action::WakeAccept { request: requests.entries[request].token }]
    } else {
        actions
    }
}

/// The waiter of a held request is told if it was still waiting.
pub open spec fn accept_told(
    requests: SlotsView<AcceptRequest>,
    request: RequestToken,
    actions: Seq<Action>,
    actions_after: Seq<Action>,
) -> bool {
    actions_after =~= if requests.entries.contains_key(request)
        && requests.entries[request].result is Pending {
        actions + seq![Action::WakeAccept { request: requests.entries[request].token }]
    } else {
        actions
    }
}

/// An inbound route closes as one whose peer was accepted: it owes no rejection, and
/// no answer.
pub open spec fn closes_accepted(
    view: RegistryView,
    token: CmRouteToken,
    connection: ConnectionToken,
    selected: bool,
) -> bool {
    &&& view.inbound(token)
    &&& view.inbound_route(token).state matches InboundState::Closing {
        connection: led,
        request,
        completion,
        selected: pair,
        peer,
    } && led.token == connection && request is None && completion is None && pair == selected
        && peer is Accepted
}

/// The local close of an accepted connection takes its route along, whether the route
/// waits for its establishment, for its delivery, or is established: the accept that
/// waits fails, and its waiter is told. Any other route stays.
pub proof fn a_close_takes_an_accepted_route(
    cm: CmView,
    view: RegistryView,
    requests: SlotsView<AcceptRequest>,
    actions: Seq<Action>,
    token: CmRouteToken,
    connection: ConnectionToken,
)
    requires
        view.connected(connection),
        view.inbound(token),
    ensures
        view.connection(connection).inbound_accept_succeeded ==> match view.inbound_route(
            token,
        ).state {
            InboundState::AwaitEstablished { request, connection: led } => led == connection ==> {
                &&& closes_accepted(
                    close_prepared(view, token, connection),
                    token,
                    connection,
                    true,
                )
                &&& accept_failed_over(
                    requests,
                    close_prepared_requests(cm, view, requests, token, connection),
                    request,
                    reason_to_end(cm, view.inbound_route(token).listener),
                )
                &&& accept_always_told(
                    requests,
                    request,
                    actions,
                    close_prepared_actions(view, requests, actions, token, connection),
                )
            },
            InboundState::EstablishedAwaitingDelivery { request, connection: led } => led.token
                == connection ==> {
                &&& closes_accepted(
                    close_prepared(view, token, connection),
                    token,
                    connection,
                    true,
                )
                &&& accept_failed_over(
                    requests,
                    close_prepared_requests(cm, view, requests, token, connection),
                    request,
                    reason_to_end(cm, view.inbound_route(token).listener),
                )
                &&& accept_always_told(
                    requests,
                    request,
                    actions,
                    close_prepared_actions(view, requests, actions, token, connection),
                )
            },
            InboundState::Established { connection: led } => led.token == connection ==> {
                &&& closes_accepted(
                    close_prepared(view, token, connection),
                    token,
                    connection,
                    false,
                )
                &&& close_prepared_requests(cm, view, requests, token, connection) == requests
                &&& close_prepared_actions(view, requests, actions, token, connection) == actions
            },
            _ => {
                &&& close_prepared(view, token, connection) == view
                &&& close_prepared_requests(cm, view, requests, token, connection) == requests
                &&& close_prepared_actions(view, requests, actions, token, connection) == actions
            },
        },
        !view.connection(connection).inbound_accept_succeeded ==> {
            &&& close_prepared(view, token, connection) == view
            &&& close_prepared_requests(cm, view, requests, token, connection) == requests
            &&& close_prepared_actions(view, requests, actions, token, connection) == actions
        },
        others_kept(view, close_prepared(view, token, connection), token),
{
}

/// A cancelled accept whose connection was accepted and not handed out fails, and its
/// connection is torn down; one that was handed out stays established, and its pair
/// ends.
pub proof fn a_cancelled_accept_is_torn_down(
    cm: CmView,
    cm_after: CmView,
    before: RegistryView,
    after: RegistryView,
    requests: SlotsView<AcceptRequest>,
    requests_after: SlotsView<AcceptRequest>,
    actions: Seq<Action>,
    actions_after: Seq<Action>,
    token: CmRouteToken,
    result: Result<Option<ConnectionToken>, Error>,
    request: RequestToken,
    connection: ConnectionToken,
)
    requires
        route_cancelled(
            cm,
            cm_after,
            before,
            after,
            requests,
            requests_after,
            actions,
            actions_after,
            token,
            result,
        ),
        before.inbound(token),
        match before.inbound_route(token).state {
            InboundState::AwaitEstablished { request: waiting, connection: led } => waiting
                == request && led == connection,
            InboundState::EstablishedAwaitingDelivery { request: waiting, connection: led } =>
            waiting == request && led.token == connection,
            _ => false,
        },
        before.connected(connection),
        before.connection(connection).inbound_accept_succeeded,
    ensures
        accept_always_told(requests, request, actions, actions_after),
        others_kept(before, after, token),
        !handed_out(requests.entries, request) ==> {
            &&& result == Ok::<Option<ConnectionToken>, Error>(Some(connection))
            &&& closes_accepted(after, token, connection, true)
            &&& accept_failed_over(
                requests,
                requests_after,
                request,
                reason_to_end(cm, before.inbound_route(token).listener),
            )
            &&& cm_after == cm
        },
        handed_out(requests.entries, request) ==> {
            &&& result == Ok::<Option<ConnectionToken>, Error>(None)
            &&& after.inbound(token)
            &&& after.inbound_route(token).state is Established
            &&& after.inbound_route(token).state->Established_connection.token == connection
            &&& pair_ended(
                cm,
                cm_after,
                requests,
                requests_after,
                before.inbound_route(token).listener,
                token.encoded(),
            )
        },
{
}

/// A cancellation that finds no accept waiting changes nothing.
pub proof fn a_cancellation_spares_what_does_not_wait(
    cm: CmView,
    cm_after: CmView,
    before: RegistryView,
    after: RegistryView,
    requests: SlotsView<AcceptRequest>,
    requests_after: SlotsView<AcceptRequest>,
    actions: Seq<Action>,
    actions_after: Seq<Action>,
    token: CmRouteToken,
    result: Result<Option<ConnectionToken>, Error>,
)
    requires
        route_cancelled(
            cm,
            cm_after,
            before,
            after,
            requests,
            requests_after,
            actions,
            actions_after,
            token,
            result,
        ),
        !before.inbound(token) || !(before.inbound_route(token).state is AwaitEstablished
            || before.inbound_route(token).state is EstablishedAwaitingDelivery),
    ensures
        result == Ok::<Option<ConnectionToken>, Error>(None),
        cm_after == cm,
        after == before,
        requests_after == requests,
        actions_after == actions,
{
}

/// An established accept succeeds: where its connection is registered, its listener is
/// open, the engine runs on and nobody gave up, the connection is active, the request,
/// if pending, is answered with the connection's token, and the route waits for its
/// delivery.
pub proof fn an_established_accept_succeeds(
    cm: CmView,
    cm_after: CmView,
    before: RegistryView,
    after: RegistryView,
    requests: SlotsView<AcceptRequest>,
    requests_after: SlotsView<AcceptRequest>,
    actions: Seq<Action>,
    actions_after: Seq<Action>,
    token: CmRouteToken,
    shutting_down: bool,
    result: Result<InboundStep, Error>,
    request: RequestToken,
    connection: ConnectionToken,
)
    requires
        inbound_established(
            cm,
            cm_after,
            before,
            after,
            requests,
            requests_after,
            actions,
            actions_after,
            token,
            shutting_down,
            result,
        ),
        before.inbound(token),
        before.inbound_route(token).state == (InboundState::AwaitEstablished {
            request,
            connection,
        }),
        before.connected(connection),
    ensures
        !shutting_down && !withdrawn(requests.entries, request) && cm.listeners.has(
            before.inbound_route(token).listener,
        ) && takes_more(cm.listeners.entry(before.inbound_route(token).listener)@) ==> {
            &&& result == Ok::<InboundStep, Error>(InboundStep::Done(EventDisposition::Handled))
            &&& after.inbound(token)
            &&& after.inbound_route(token).state is EstablishedAwaitingDelivery
            &&& after.inbound_route(token).state->EstablishedAwaitingDelivery_request == request
            &&& after.inbound_route(
                token,
            ).state->EstablishedAwaitingDelivery_connection.token == connection
            &&& before.entry(connection).quarantine is None && (before.entry(connection).lifecycle
                is Inbound || before.entry(connection).lifecycle is Outbound) ==> after.entry(
                connection,
            ).lifecycle == Lifecycle::Active
            &&& accept_answered(requests, requests_after, request, Ok(connection))
            &&& accept_told(requests, request, actions, actions_after)
            &&& cm_after == cm
        },
        (shutting_down || withdrawn(requests.entries, request) || !cm.listeners.has(
            before.inbound_route(token).listener,
        ) || !takes_more(cm.listeners.entry(before.inbound_route(token).listener)@))
            && before.connection(connection).inbound_accept_succeeded && !handed_out(
            requests.entries,
            request,
        ) ==> {
            &&& result == Ok::<InboundStep, Error>(InboundStep::Teardown { connection })
            &&& closes_accepted(after, token, connection, true)
            &&& accept_failed_over(
                requests,
                requests_after,
                request,
                if withdrawn(requests.entries, request) || !cm.listeners.has(
                    before.inbound_route(token).listener,
                ) {
                    Error::DriverShutdown
                } else {
                    match cm.listeners.entry(before.inbound_route(token).listener)@.failure {
                        Some(error) => error,
                        None => Error::TransportClosed,
                    }
                },
            )
            &&& accept_always_told(requests, request, actions, actions_after)
            &&& cm_after == cm
        },
{
}

/// An establishment that no inbound route waits for is a duplicate and changes nothing.
pub proof fn an_unawaited_establishment_changes_nothing(
    cm: CmView,
    cm_after: CmView,
    before: RegistryView,
    after: RegistryView,
    requests: SlotsView<AcceptRequest>,
    requests_after: SlotsView<AcceptRequest>,
    actions: Seq<Action>,
    actions_after: Seq<Action>,
    token: CmRouteToken,
    shutting_down: bool,
    result: Result<InboundStep, Error>,
)
    requires
        inbound_established(
            cm,
            cm_after,
            before,
            after,
            requests,
            requests_after,
            actions,
            actions_after,
            token,
            shutting_down,
            result,
        ),
        !before.inbound(token) || !(before.inbound_route(token).state is AwaitEstablished),
    ensures
        result == Ok::<InboundStep, Error>(
            InboundStep::Done(EventDisposition::Rejected(CmEventReject::Duplicate)),
        ),
        cm_after == cm,
        after == before,
        requests_after == requests,
        actions_after == actions,
{
}

/// What a terminal event does to an open inbound route of an accepted connection.
pub open spec fn accepted_route_ended(
    before: RegistryView,
    after: RegistryView,
    requests: SlotsView<AcceptRequest>,
    requests_after: SlotsView<AcceptRequest>,
    actions: Seq<Action>,
    actions_after: Seq<Action>,
    token: CmRouteToken,
    connection: ConnectionToken,
    waiting: Option<RequestToken>,
    error: Error,
    told: Seq<Action>,
    result: Result<InboundStep, Error>,
) -> bool {
    &&& result == Ok::<InboundStep, Error>(InboundStep::Teardown { connection })
    &&& closes_accepted(after, token, connection, waiting is Some)
    &&& after.connected(connection)
    &&& after.connection(connection).io_closed
    &&& match waiting {
        Some(request) => {
            &&& accept_failed_over(requests, requests_after, request, error)
            &&& actions_after =~= actions + told + if requests.entries.contains_key(request) {
                seq![Action::WakeAccept { request: requests.entries[request].token }]
            } else {
                Seq::empty()
            }
        },
        None => requests_after == requests && actions_after =~= actions + told,
    }
}

/// A disconnect, or a failure, ends every open inbound route of an accepted connection:
/// one that waits for its establishment or its delivery fails its accept, an
/// established one has none; the I/O side is told, and a teardown follows. A failure
/// is also the reason of the close, if none came before, and wakes the close's
/// waiters; a disconnect is not.
pub proof fn a_terminal_event_ends_an_accepted_route(
    before: RegistryView,
    after: RegistryView,
    requests: SlotsView<AcceptRequest>,
    requests_after: SlotsView<AcceptRequest>,
    actions: Seq<Action>,
    actions_after: Seq<Action>,
    token: CmRouteToken,
    error: Error,
    fails: bool,
    result: Result<InboundStep, Error>,
    connection: ConnectionToken,
)
    requires
        if fails {
            inbound_failed(
                before,
                after,
                requests,
                requests_after,
                actions,
                actions_after,
                token,
                error,
                result,
            )
        } else {
            inbound_disconnected(
                before,
                after,
                requests,
                requests_after,
                actions,
                actions_after,
                token,
                error,
                result,
            )
        },
        before.inbound(token),
        match before.inbound_route(token).state {
            InboundState::AwaitEstablished { connection: led, .. } => led == connection,
            InboundState::EstablishedAwaitingDelivery { connection: led, .. } => led.token
                == connection,
            InboundState::Established { connection: led } => led.token == connection,
            _ => false,
        },
        before.connected(connection),
        before.connection(connection).inbound_accept_succeeded,
    ensures
        accepted_route_ended(
            before,
            after,
            requests,
            requests_after,
            actions,
            actions_after,
            token,
            connection,
            match before.inbound_route(token).state {
                InboundState::AwaitEstablished { request, .. } => Some(request),
                InboundState::EstablishedAwaitingDelivery { request, .. } => Some(request),
                _ => None,
            },
            error,
            if fails {
                seq![
                    Action::WakeClose { connection: before.connection(connection).token },
                    Action::IoEvent { connection, event: IoTerminalEvent::Terminal(error) },
                ]
            } else {
                seq![Action::IoEvent { connection, event: IoTerminalEvent::Disconnected }]
            },
            result,
        ),
        !fails ==> after.connection(connection).close_result == before.connection(
            connection,
        ).close_result,
        fails && before.connection(connection).close_result is None ==> after.connection(
            connection,
        ).close_result == Some(MemoizedTerminalResult::Failed(error)),
        fails && before.connection(connection).close_result is Some ==> after.connection(
            connection,
        ).close_result == before.connection(connection).close_result,
{
}

/// A terminal event settles the rejection that a closing route owes its peer, once: the
/// route keeps everything else that it owes, and its connection is torn down. Of any
/// other closing route nothing changes.
pub proof fn a_terminal_event_settles_a_rejection(
    before: RegistryView,
    after: RegistryView,
    requests: SlotsView<AcceptRequest>,
    requests_after: SlotsView<AcceptRequest>,
    actions: Seq<Action>,
    actions_after: Seq<Action>,
    token: CmRouteToken,
    error: Error,
    fails: bool,
    result: Result<InboundStep, Error>,
)
    requires
        if fails {
            inbound_failed(
                before,
                after,
                requests,
                requests_after,
                actions,
                actions_after,
                token,
                error,
                result,
            )
        } else {
            inbound_disconnected(
                before,
                after,
                requests,
                requests_after,
                actions,
                actions_after,
                token,
                error,
                result,
            )
        },
        before.inbound(token),
        before.inbound_route(token).state is Closing,
    ensures
        requests_after == requests,
        before.inbound_route(token).state matches InboundState::Closing {
            connection,
            request,
            completion,
            selected,
            peer: InboundPeerState::PreAccept { reject: Some(_) },
        } ==> (before.connected(connection.token) ==> {
            &&& result == Ok::<InboundStep, Error>(
                InboundStep::Teardown { connection: connection.token },
            )
            &&& after.connection(connection.token).io_closed
            &&& after.inbound(token)
            &&& after.inbound_route(token).state matches InboundState::Closing {
                connection: led,
                request: waiting,
                completion: owed,
                selected: pair,
                peer: InboundPeerState::PreAccept { reject: None },
            } && led == connection && waiting == request && owed == completion && pair == selected
            &&& actions_after =~= actions + seq![
                Action::IoEvent {
                    connection: connection.token,
                    event: IoTerminalEvent::Disconnected,
                },
            ]
        }),
        !(before.inbound_route(token).state matches InboundState::Closing {
            peer: InboundPeerState::PreAccept { reject: Some(_) },
            ..
        }) ==> {
            &&& result == Ok::<InboundStep, Error>(
                InboundStep::Done(EventDisposition::Rejected(CmEventReject::Duplicate)),
            )
            &&& after == before
            &&& actions_after == actions
        },
{
}

/// A terminal event for a route that is neither open nor closing changes nothing: it is
/// a duplicate, or, where a failure meets a child that nobody selected yet, unexpected.
pub proof fn other_terminal_events_change_nothing(
    before: RegistryView,
    after: RegistryView,
    requests: SlotsView<AcceptRequest>,
    requests_after: SlotsView<AcceptRequest>,
    actions: Seq<Action>,
    actions_after: Seq<Action>,
    token: CmRouteToken,
    error: Error,
    fails: bool,
    result: Result<InboundStep, Error>,
)
    requires
        if fails {
            inbound_failed(
                before,
                after,
                requests,
                requests_after,
                actions,
                actions_after,
                token,
                error,
                result,
            )
        } else {
            inbound_disconnected(
                before,
                after,
                requests,
                requests_after,
                actions,
                actions_after,
                token,
                error,
                result,
            )
        },
        !before.inbound(token) || before.inbound_route(token).state is PendingSelection
            || before.inbound_route(token).state is Quarantined || before.inbound_route(
            token,
        ).state is Transitioning,
    ensures
        after == before,
        requests_after == requests,
        actions_after == actions,
        fails && before.inbound(token) && before.inbound_route(token).state is Transitioning
            ==> result is Err,
        fails && before.inbound(token) && before.inbound_route(token).state is PendingSelection
            ==> result == Ok::<InboundStep, Error>(
            InboundStep::Done(EventDisposition::Rejected(CmEventReject::Unexpected)),
        ),
        !fails || !before.inbound(token) || before.inbound_route(token).state is Quarantined
            ==> result == Ok::<InboundStep, Error>(
            InboundStep::Done(EventDisposition::Rejected(CmEventReject::Duplicate)),
        ),
{
}

/// A peer is turned away by a listener that is gone or closes, and by one whose backlog
/// is used up; by no other.
pub proof fn a_peer_is_turned_away_only_for_cause(cm: CmView, listener: ListenerToken)
    ensures
        !cm.listeners.has(listener) || !takes_more(cm.listeners.entry(listener)@)
            ==> child_refusal(cm, listener) == Some(InboundRejectReason::ListenerClosed),
        cm.listeners.has(listener) && takes_more(cm.listeners.entry(listener)@)
            && cm.listeners.entry(listener)@.child_slots_used >= cm.listeners.entry(
            listener,
        )@.backlog ==> child_refusal(cm, listener) == Some(InboundRejectReason::BacklogFull),
        cm.listeners.has(listener) && takes_more(cm.listeners.entry(listener)@)
            && cm.listeners.entry(listener)@.child_slots_used < cm.listeners.entry(
            listener,
        )@.backlog ==> child_refusal(cm, listener) is None,
        unreserved_reason(Error::CapacityExhausted) == InboundRejectReason::ConnectionCapacity,
        forall|error: Error|
            #![trigger unreserved_reason(error)]
            !(error is CapacityExhausted) ==> unreserved_reason(error)
                == InboundRejectReason::AdmissionClosed,
{
}

/// A peer that is let in takes a slot of the backlog, comes last, and is paired at once
/// with the first waiter where it is the first child; the listener is then looked at.
pub proof fn an_admitted_child_takes_its_turn(
    before: CmView,
    after: CmView,
    listener: ListenerToken,
    child: IncomingChild,
    requests: SlotsView<AcceptRequest>,
)
    requires
        before.listeners.has(listener),
        before.listeners.entry(listener)@.child_slots_used < usize::MAX,
        child_admitted(before, after, listener, child, requests),
    ensures
        after.listeners.has(listener),
        ({
            let old_view = before.listeners.entry(listener)@;
            let new_view = after.listeners.entry(listener)@;
            let pairs = old_view.selected is None && old_view.waiters.len() > 0 && !withdrawn(
                requests.entries,
                old_view.waiters[0],
            );
            &&& new_view.child_slots_used == old_view.child_slots_used + 1
            &&& !pairs ==> {
                &&& new_view.children =~= old_view.children + seq![child]
                &&& new_view.waiters == old_view.waiters
                &&& new_view.selected == old_view.selected
            }
            &&& pairs && old_view.children.len() == 0 ==> {
                &&& new_view.selected == Some(
                    SelectedAccept::Ready { request: old_view.waiters[0], child },
                )
                &&& new_view.children.len() == 0
                &&& new_view.waiters =~= old_view.waiters.skip(1)
                &&& new_view.work_enqueued
                &&& !old_view.work_enqueued ==> after.listener_work =~= before.listener_work
                    + seq![listener]
            }
            &&& pairs && old_view.children.len() > 0 ==> {
                &&& new_view.selected == Some(
                    SelectedAccept::Ready {
                        request: old_view.waiters[0],
                        child: old_view.children[0],
                    },
                )
                &&& new_view.children =~= old_view.children.skip(1) + seq![child]
            }
            &&& new_view.closing == old_view.closing
            &&& new_view.admission == old_view.admission
        }),
        after.routes == before.routes,
        after.destructions == before.destructions,
{
}

/// A peer that is let in gets a route of its own that waits for its selection, with its
/// identifier and its reservation; no other entry changes.
pub proof fn an_admitted_child_waits_for_its_selection(
    before: RegistryView,
    after: RegistryView,
    token: CmRouteToken,
    listener: ListenerToken,
    cm_id: CmId,
    reservation: ConnectionReservation,
)
    requires
        child_routed(before, after, token, listener, cm_id, reservation),
    ensures
        after.inbound(token),
        after.inbound_route(token).listener == listener,
        after.inbound_route(token).state == (InboundState::PendingSelection { cm_id, reservation }),
        after.entry(token).lifecycle == Lifecycle::Inbound,
        after.entry(token).connection is None,
        after.entry(token).quarantine is None,
        after.entry(token).setup is None,
        pending_child(after, token) == Some((cm_id, reservation)),
        others_kept(before, after, token),
{
}

/// Only a route that waits for its selection has a child to hand out.
pub proof fn a_child_is_handed_out_while_it_waits(view: RegistryView, token: CmRouteToken)
    ensures
        view.inbound(token) ==> (view.inbound_route(token).state matches
            InboundState::PendingSelection { cm_id, reservation } ==> pending_child(view, token)
            == Some((cm_id, reservation))),
        !view.inbound(token) || !(view.inbound_route(token).state is PendingSelection)
            ==> pending_child(view, token) is None,
{
}

/// A child that is rejected loses its identifier and its route; one that the provider
/// would not reject is kept, whole and quarantined.
pub proof fn a_rejected_child_is_gone(
    cm: CmView,
    cm_after: CmView,
    before: RegistryView,
    after: RegistryView,
    token: CmRouteToken,
    held: Option<(CmId, ConnectionReservation)>,
    reason: InboundRejectReason,
    reply: Result<(), Error>,
    result: Result<(), Error>,
)
    requires
        child_rejected(cm, cm_after, before, after, token, held, reason, reply, result),
        before.inbound(token),
        before.entry(token).connection is None,
        before.entry(token).quarantine is None,
        before.entry(token).setup is None,
        before.entry(token).lifecycle is Inbound,
    ensures
        held is None ==> result is Ok && cm_after == cm && after == before,
        held matches Some((cm_id, reservation)) ==> {
            &&& result is Ok <==> reply is Ok
            &&& reply is Ok ==> {
                &&& cm_after.destructions =~= cm.destructions + seq![
                    PendingCmDestruction::Route(cm_id),
                ]
                &&& !after.has(token)
                &&& before.slots.tabled() ==> after.slots.lookup(token) is Duplicate
            }
            &&& reply is Err ==> {
                &&& cm_after == cm
                &&& after.inbound(token)
                &&& after.entry(token).quarantine == Some(true)
                &&& after.inbound_route(token).state matches InboundState::PendingSelection {
                    cm_id: kept_id,
                    reservation: kept,
                } && kept_id == cm_id && kept.state.is_quarantined()
            }
            &&& others_kept(before, after, token)
        },
{
}

/// A selected pair goes on to its setup, with the child and the reservation that its
/// route holds and the configuration that its waiter asked for, and its request names
/// the route. It is turned away instead where the waiter gave up, the listener is gone
/// or closes, or the engine shuts down.
pub proof fn a_selected_pair_is_set_up(
    cm: CmView,
    before: RegistryView,
    after: RegistryView,
    requests: SlotsView<AcceptRequest>,
    requests_after: SlotsView<AcceptRequest>,
    listener: ListenerToken,
    request: RequestToken,
    token: CmRouteToken,
    shutting_down: bool,
    result: Result<SelectedStep, Error>,
)
    requires
        pair_begun(
            cm,
            before,
            after,
            requests,
            requests_after,
            listener,
            request,
            token,
            shutting_down,
            result,
        ),
        requests.entries.contains_key(request),
    ensures
        ({
            let ended = !cm.listeners.has(listener) || !takes_more(cm.listeners.entry(listener)@);
            let refused = ended || withdrawn(requests.entries, request) || shutting_down;
            &&& refused ==> {
                &&& result matches Ok(SelectedStep::RejectChild(rejection)) && rejection.token
                    == token && rejection.listener == listener && rejection.request == request
                    && !rejection.routed && rejection.held == pending_child(before, token)
                    && rejection.reason == (if ended || withdrawn(requests.entries, request) {
                    InboundRejectReason::ListenerClosed
                } else {
                    InboundRejectReason::AdmissionClosed
                }) && rejection.error == (if cm.listeners.has(listener) && ended {
                    match cm.listeners.entry(listener)@.failure {
                        Some(error) => error,
                        None => Error::TransportClosed,
                    }
                } else if ended {
                    Error::TransportClosed
                } else {
                    Error::DriverShutdown
                })
                &&& requests_after == requests
            }
            &&& !refused && requests.entries[request].intent is Some
                && requests.entries[request].intent->0.setup is Some && before.inbound(token) ==> (
            before.inbound_route(token).state matches InboundState::PendingSelection {
                cm_id,
                reservation,
            } ==> {
                &&& result matches Ok(SelectedStep::InstallContextToken(hold)) && hold.token
                    == token && hold.listener == listener && hold.request == request && hold.cm_id
                    == cm_id && hold.reservation == reservation && hold.config
                    == requests.entries[request].intent->0.config && hold.setup
                    == requests.entries[request].intent->0.setup->0
                &&& requests_after.entries[request].route_token == token.encoded()
                &&& requests_after.entries[request].intent is None
                &&& requests_after.entries[request].result == requests.entries[request].result
                &&& requests_after.entries[request].permit == requests.entries[request].permit
                &&& after.inbound(token)
                &&& after.inbound_route(token).state is Transitioning
            })
            &&& !refused && (requests.entries[request].intent is None
                || requests.entries[request].intent->0.setup is None || pending_child(
                before,
                token,
            ) is None) ==> result is Err && after == before
            &&& requests_after.entries.remove(request) =~= requests.entries.remove(request)
            &&& others_kept(before, after, token)
        }),
{
}

/// A selected child that is turned away answers its waiter with the error, ends the
/// pair and gives the waiter's permit back; its identifier and its route go. What the
/// provider would not reject is kept, and nobody is answered.
pub proof fn a_selected_child_answers_its_waiter(
    cm: CmView,
    cm_after: CmView,
    before: RegistryView,
    after: RegistryView,
    requests: SlotsView<AcceptRequest>,
    requests_after: SlotsView<AcceptRequest>,
    actions: Seq<Action>,
    actions_after: Seq<Action>,
    rejection: SelectedRejection,
    reply: Result<(), Error>,
    result: Result<(), Error>,
)
    requires
        selected_child_gone(
            cm,
            cm_after,
            before,
            after,
            requests,
            requests_after,
            actions,
            actions_after,
            rejection,
            reply,
            result,
        ),
    ensures
        rejection.held is Some && reply is Err ==> {
            &&& result is Err
            &&& requests_after == requests
            &&& actions_after == actions
            &&& cm_after == cm
        },
        !(rejection.held is Some && reply is Err) ==> {
            &&& result is Ok
            &&& accept_told(requests, rejection.request, actions, actions_after)
            &&& requests.entries.contains_key(rejection.request) ==> {
                &&& requests_after.entries.contains_key(rejection.request)
                &&& requests_after.entries[rejection.request].result
                    == if requests.entries[rejection.request].result is Pending {
                    TakeOnceResult::Ready(Err(rejection.error))
                } else {
                    requests.entries[rejection.request].result
                }
            }
            &&& rejection.held matches Some((cm_id, _)) ==> {
                &&& cm_after.destructions =~= cm.destructions + seq![
                    PendingCmDestruction::Route(cm_id),
                ]
                &&& before.has(rejection.token) && before.entry(rejection.token).connection is None
                    ==> !after.has(rejection.token)
            }
            &&& rejection.held is None ==> cm_after.destructions == cm.destructions && after
                == before
            &&& cm.listeners.has(rejection.listener) && !rejection.routed ==> (
            cm.listeners.entry(rejection.listener)@.selected matches Some(selected) ==> (
            match selected {
                SelectedAccept::Ready { request, .. } => request,
                SelectedAccept::Processing { request } => request,
                SelectedAccept::Routed { request, .. } => request,
            } == rejection.request ==> {
                &&& cm_after.listeners.has(rejection.listener)
                &&& cm.listeners.entry(rejection.listener)@.child_slots_used > 0
                    ==> cm_after.listeners.entry(rejection.listener)@.child_slots_used
                    == cm.listeners.entry(rejection.listener)@.child_slots_used - 1
                &&& requests.entries.contains_key(rejection.request)
                    ==> requests_after.entries[rejection.request].permit is None
            }))
        },
{
}

/// A child that was given its token carries the route's number under its own raw
/// number, and the route carries the child's numbers.
pub proof fn a_child_and_its_route_name_each_other(
    hold: AcceptHold,
    context_key: u64,
    view: RegistryView,
    cm_id: CmId,
)
    requires
        view.inbound(hold.token),
    ensures
        with_context(hold, context_key).raw_id == hold.cm_id.raw_id,
        with_context(hold, context_key).context_key == context_key,
        with_context(hold, context_key).context_token is Some,
        with_context(hold, context_key).context_token->0 == hold.token.encoded(),
        ({
            let after = inbound_identified(view, hold.token, cm_id);
            &&& after.inbound(hold.token)
            &&& after.inbound_route(hold.token).raw_id == cm_id.raw_id
            &&& after.inbound_route(hold.token).context_key == cm_id.context_key
            &&& after.inbound_route(hold.token).state == view.inbound_route(hold.token).state
            &&& after.inbound_route(hold.token).listener == view.inbound_route(hold.token).listener
            &&& others_kept(view, after, hold.token)
        }),
        inbound_quarantined(view, hold.token, None).inbound_route(
            hold.token,
        ).state is Quarantined,
        others_kept(view, inbound_quarantined(view, hold.token, None), hold.token),
{
}

/// The route of a selected pair is found by its context key, and its listener knows it;
/// a listener that lost the pair meanwhile, or is gone, says so.
pub proof fn a_selected_route_is_found(
    before: CmView,
    after: CmView,
    hold: AcceptHold,
    cm_id: CmId,
    result: Result<SelectedStep, Error>,
)
    requires
        pair_routed(before, after, hold, cm_id, result),
    ensures
        after.routes =~= before.routes.insert(
            cm_id.context_key,
            ContextRoute::Inbound { token: hold.token, raw_id: cm_id.raw_id },
        ),
        !before.listeners.has(hold.listener) ==> result == Err::<SelectedStep, Error>(
            Error::TransportClosed,
        ),
        before.listeners.has(hold.listener) && before.listeners.entry(hold.listener)@.selected
            == Some(SelectedAccept::Processing { request: hold.request }) ==> {
            &&& result matches Ok(SelectedStep::BuildQp(next)) && next.token == hold.token
                && next.request == hold.request && next.listener == hold.listener && next.cm_id
                == cm_id && next.reservation == hold.reservation && next.config == hold.config
                && next.setup == hold.setup
            &&& after.listeners.entry(hold.listener)@.selected matches Some(
                SelectedAccept::Routed { request, route, cancel_started },
            ) && request == hold.request && route == hold.token.encoded() && !cancel_started
        },
        before.listeners.has(hold.listener) && before.listeners.entry(hold.listener)@.selected
            != Some(SelectedAccept::Processing { request: hold.request }) ==> result is Err,
{
}

/// The setup of an accept goes on unless its listener closes, its waiter gave up or the
/// engine shuts down; a closing listener gives its own reason.
pub proof fn only_a_wanted_accept_goes_on(
    cm: CmView,
    requests: SlotsView<AcceptRequest>,
    listener: ListenerToken,
    request: RequestToken,
    shutting_down: bool,
)
    ensures
        cm.listeners.has(listener) && !takes_more(cm.listeners.entry(listener)@) ==> accept_gate(
            cm,
            requests,
            listener,
            request,
            shutting_down,
        ) == Err::<(), Error>(
            match cm.listeners.entry(listener)@.failure {
                Some(error) => error,
                None => Error::TransportClosed,
            },
        ),
        !(cm.listeners.has(listener) && !takes_more(cm.listeners.entry(listener)@)) && (withdrawn(
            requests.entries,
            request,
        ) || shutting_down) ==> accept_gate(cm, requests, listener, request, shutting_down) == Err::<
            (),
            Error,
        >(Error::DriverShutdown),
        !(cm.listeners.has(listener) && !takes_more(cm.listeners.entry(listener)@)) && !withdrawn(
            requests.entries,
            request,
        ) && !shutting_down ==> accept_gate(cm, requests, listener, request, shutting_down) is Ok,
{
}

/// The peer is accepted on the identifier that the connection holds.
pub proof fn the_peer_is_accepted_on_the_held_identifier(
    view: RegistryView,
    token: CmRouteToken,
    target: Result<u64, Error>,
)
    requires
        accept_target(view, token, target),
    ensures
        match view.connection(token).poster {
            ConnectionPoster::Verbs(resources) => match resources.cm_owner {
                Some(cm_id) => target == Ok::<u64, Error>(cm_id.raw_id),
                None => target == Err::<u64, Error>(Error::TransportClosed),
            },
            ConnectionPoster::Synthetic { .. } => target is Err && target->Err_0 is InvalidConfig,
        },
{
}

/// A setup that fails says why to the peer: that the listener is closed, that the engine
/// admits nobody, or that the setup failed.
pub proof fn a_failed_setup_tells_the_peer(error: Error, cancelled: bool)
    ensures
        error is DriverShutdown && cancelled ==> setup_reject_reason(error, cancelled)
            == InboundRejectReason::ListenerClosed,
        error is DriverShutdown && !cancelled ==> setup_reject_reason(error, cancelled)
            == InboundRejectReason::AdmissionClosed,
        error is TransportClosed ==> setup_reject_reason(error, cancelled)
            == InboundRejectReason::ListenerClosed,
        !(error is DriverShutdown || error is TransportClosed) ==> setup_reject_reason(
            error,
            cancelled,
        ) == InboundRejectReason::SetupFailure,
{
}

/// A selected pair whose setup failed is rejected on the identifier that its connection
/// holds, for its error; where the provider accepted the peer already, the connection
/// is torn down and the accept fails instead.
pub proof fn a_failed_pair_is_rejected_or_torn_down(
    cm: CmView,
    cm_after: CmView,
    before: RegistryView,
    after: RegistryView,
    requests: SlotsView<AcceptRequest>,
    requests_after: SlotsView<AcceptRequest>,
    actions: Seq<Action>,
    actions_after: Seq<Action>,
    token: CmRouteToken,
    request: RequestToken,
    connection: ConnectionToken,
    error: Error,
    result: Result<SelectedStep, Error>,
)
    requires
        selected_failed(
            cm,
            cm_after,
            before,
            after,
            requests,
            requests_after,
            actions,
            actions_after,
            token,
            request,
            connection,
            error,
            result,
        ),
        before.connected(connection),
        before.inbound(token),
    ensures
        !before.connection(connection).inbound_accept_succeeded ==> {
            &&& result matches Ok(
                SelectedStep::RejectSelected {
                    token: route,
                    request: waiting,
                    connection: failed,
                    error: cause,
                    target,
                    ..
                },
            ) && route == token && waiting == request && failed == connection && cause == error && (
            before.connection(connection).poster matches ConnectionPoster::Verbs(resources) ==> (
            resources.cm_owner matches Some(cm_id) ==> target == Ok::<u64, Error>(cm_id.raw_id)))
            &&& cm_after == cm
            &&& after == before
            &&& requests_after == requests
            &&& actions_after == actions
        },
        before.connection(connection).inbound_accept_succeeded && !handed_out(
            requests.entries,
            request,
        ) ==> {
            &&& result == Ok::<SelectedStep, Error>(SelectedStep::Teardown { connection })
            &&& closes_accepted(after, token, connection, true)
            &&& accept_failed_over(requests, requests_after, request, error)
            &&& accept_always_told(requests, request, actions, actions_after)
            &&& cm_after == cm
        },
{
}

/// A pair that failed beyond repair fails its listener, ends, and gives its permit back.
pub proof fn a_broken_pair_fails_its_listener(
    cm: CmView,
    cm_after: CmView,
    requests: SlotsView<AcceptRequest>,
    requests_after: SlotsView<AcceptRequest>,
    listener: ListenerToken,
    route: u64,
    error: Error,
    queued: bool,
)
    requires
        if queued {
            failed_and_queued(cm, cm_after, requests, requests_after, listener, route, error)
        } else {
            failed_and_dropped(cm, cm_after, requests, requests_after, listener, route, error)
        },
    ensures
        !cm.listeners.has(listener) ==> cm_after == cm && requests_after == requests,
        cm.listeners.has(listener) ==> {
            let old_view = cm.listeners.entry(listener)@;
            let new_view = cm_after.listeners.entry(listener)@;
            let selects = old_view.selected matches Some(
                SelectedAccept::Routed { route: current, .. },
            ) && current == route;
            &&& cm_after.listeners.has(listener)
            &&& new_view.closing
            &&& !new_view.admission.open
            &&& new_view.failure == if old_view.failure is Some {
                old_view.failure
            } else {
                Some(error)
            }
            &&& selects ==> {
                &&& !(new_view.selected matches Some(SelectedAccept::Routed { .. }))
                &&& old_view.child_slots_used > 0 ==> new_view.child_slots_used
                    == old_view.child_slots_used - 1
                &&& requests.entries.contains_key(old_view.selected->0->Routed_request)
                    ==> requests_after.entries[old_view.selected->0->Routed_request].permit is None
                &&& queued ==> new_view.work_enqueued
                &&& queued && !old_view.work_enqueued ==> cm_after.listener_work
                    =~= cm.listener_work + seq![listener]
            }
            &&& !selects ==> {
                &&& new_view.selected == old_view.selected
                &&& requests_after == requests
            }
        },
{
}

/// What a listener decides on is done: a waiter that gave up, or that a closing listener
/// fails, is answered; a child that waits is handed out for its rejection; the rest
/// changes nothing of the waiters.
pub proof fn a_listeners_decision_is_carried_out(
    cm: CmView,
    cm_after: CmView,
    before: RegistryView,
    after: RegistryView,
    requests: SlotsView<AcceptRequest>,
    requests_after: SlotsView<AcceptRequest>,
    actions: Seq<Action>,
    actions_after: Seq<Action>,
    listener: ListenerToken,
    action: ListenerAction,
    shutting_down: bool,
    has_resources: bool,
    result: Result<ListenerStep, Error>,
)
    requires
        action_served(
            cm,
            cm_after,
            before,
            after,
            requests,
            requests_after,
            actions,
            actions_after,
            listener,
            action,
            shutting_down,
            has_resources,
            result,
        ),
    ensures
        action matches ListenerAction::CancelledBeforeSelection(request) ==> {
            &&& result == Ok::<ListenerStep, Error>(ListenerStep::Done)
            &&& accept_answered(requests, requests_after, request, Err(Error::DriverShutdown))
            &&& accept_told(requests, request, actions, actions_after)
            &&& after == before
            &&& cm_after == cm
        },
        action matches ListenerAction::FailUnselected(request) ==> {
            &&& result == Ok::<ListenerStep, Error>(ListenerStep::Done)
            &&& accept_answered(
                requests,
                requests_after,
                request,
                Err(
                    if cm.listeners.has(listener) {
                        match cm.listeners.entry(listener)@.failure {
                            Some(error) => error,
                            None => Error::TransportClosed,
                        }
                    } else {
                        Error::TransportClosed
                    },
                ),
            )
            &&& accept_told(requests, request, actions, actions_after)
            &&& after == before
            &&& cm_after == cm
        },
        action matches ListenerAction::RejectChild(child, reason) ==> {
            &&& result matches Ok(ListenerStep::RejectChild { token, held, reason: told })
                && token == child.token && held == pending_child(before, child.token) && told
                == reason
            &&& requests_after == requests
            &&& others_kept(before, after, child.token)
        },
        action matches ListenerAction::RejectSelected { request, child, reason } ==> {
            &&& result matches Ok(
                ListenerStep::RejectSelected { token, held, request: waiting, error },
            ) && token == child.token && held == pending_child(before, child.token) && waiting
                == request && error == reason
            &&& requests_after == requests
            &&& others_kept(before, after, child.token)
        },
        action is ProcessSelected && !has_resources ==> {
            &&& result is Err
            &&& after == before
            &&& requests_after == requests
        },
        action matches ListenerAction::AcknowledgeDelivery { request, route } ==> {
            let token = SlotToken::decoded(route);
            before.inbound(token) ==> (before.inbound_route(token).state matches
                InboundState::EstablishedAwaitingDelivery { request: waiting, connection }
                ==> (waiting == request ==> {
                &&& result == Ok::<ListenerStep, Error>(ListenerStep::Done)
                &&& after.inbound(token)
                &&& after.inbound_route(token).state is Established
                &&& after.inbound_route(token).state->Established_connection == connection
                &&& actions_after == actions
                &&& others_kept(before, after, token)
                &&& pair_ended(cm, cm_after, requests, requests_after, listener, route as int)
            }))
        },
        action matches ListenerAction::AcknowledgeDelivery { route, .. } ==> {
            let token = SlotToken::decoded(route);
            !before.inbound(token) || !(before.inbound_route(token).state is AwaitEstablished
                || before.inbound_route(token).state is EstablishedAwaitingDelivery) ==> {
                &&& result == Ok::<ListenerStep, Error>(ListenerStep::Done)
                &&& after == before
                &&& requests_after == requests
                &&& actions_after == actions
            }
        },
        action is Idle ==> {
            &&& result == Ok::<ListenerStep, Error>(ListenerStep::Done)
            &&& cm_after == cm
            &&& after == before
            &&& requests_after == requests
            &&& actions_after == actions
        },
{
}

/// A cancelled accept that a listener had set up is torn down by it.
pub proof fn a_listener_tears_a_cancelled_accept_down(
    cm: CmView,
    cm_after: CmView,
    before: RegistryView,
    after: RegistryView,
    requests: SlotsView<AcceptRequest>,
    requests_after: SlotsView<AcceptRequest>,
    actions: Seq<Action>,
    actions_after: Seq<Action>,
    listener: ListenerToken,
    request: RequestToken,
    route: u64,
    shutting_down: bool,
    has_resources: bool,
    result: Result<ListenerStep, Error>,
    connection: ConnectionToken,
)
    requires
        action_served(
            cm,
            cm_after,
            before,
            after,
            requests,
            requests_after,
            actions,
            actions_after,
            listener,
            ListenerAction::CancelAfterAccept { request, route },
            shutting_down,
            has_resources,
            result,
        ),
        before.inbound(SlotToken::decoded(route)),
        match before.inbound_route(SlotToken::decoded(route)).state {
            InboundState::AwaitEstablished { request: waiting, connection: led } => waiting
                == request && led == connection,
            InboundState::EstablishedAwaitingDelivery { request: waiting, connection: led } =>
            waiting == request && led.token == connection,
            _ => false,
        },
        before.connected(connection),
        before.connection(connection).inbound_accept_succeeded,
        !handed_out(requests.entries, request),
    ensures
        result == Ok::<ListenerStep, Error>(ListenerStep::Teardown { connection }),
        closes_accepted(after, SlotToken::decoded(route), connection, true),
        accept_failed_over(
            requests,
            requests_after,
            request,
            reason_to_end(cm, before.inbound_route(SlotToken::decoded(route)).listener),
        ),
        accept_always_told(requests, request, actions, actions_after),
{
}

/// The slot of a child that was turned away is free again; a route that closes is noted
/// with its pair, and with no other; and a listener with work is looked at.
pub proof fn a_listener_keeps_its_books(
    before: CmView,
    after: CmView,
    requests: SlotsView<AcceptRequest>,
    listener: ListenerToken,
    route: u64,
)
    requires
        before.listeners.has(listener),
    ensures
        slot_released(before, after, listener) ==> {
            &&& after.listeners.has(listener)
            &&& before.listeners.entry(listener)@.child_slots_used > 0 ==> after.listeners.entry(
                listener,
            )@.child_slots_used == before.listeners.entry(listener)@.child_slots_used - 1
            &&& before.listeners.entry(listener)@.child_slots_used == 0 ==> after.listeners.entry(
                listener,
            )@.child_slots_used == 0
            &&& after.listeners.entry(listener)@.waiters == before.listeners.entry(
                listener,
            )@.waiters
            &&& after.listener_work == before.listener_work
        },
        route_closing(before, after, listener, route) ==> {
            &&& after.listeners.has(listener)
            &&& before.listeners.entry(listener)@.selected matches Some(
                SelectedAccept::Routed { request, route: current, .. },
            ) ==> (current == route ==> after.listeners.entry(listener)@.selected == Some(
                SelectedAccept::Routed { request, route, cancel_started: true },
            ))
            &&& !(before.listeners.entry(listener)@.selected matches Some(
                SelectedAccept::Routed { route: current, .. },
            ) && current == route) ==> after.listeners.entry(listener)@.selected
                == before.listeners.entry(listener)@.selected
        },
        work_looked_for(before, after, requests, listener) && before.listeners.entry(
            listener,
        )@.has_work(requests.entries) ==> {
            &&& after.listeners.has(listener)
            &&& after.listeners.entry(listener)@.work_enqueued
            &&& !before.listeners.entry(listener).work_enqueued ==> after.listener_work
                =~= before.listener_work + seq![listener]
        },
        work_looked_for(before, after, requests, listener) && !before.listeners.entry(
            listener,
        )@.has_work(requests.entries) ==> after == before,
{
}

/// A child whose setup failed is turned away with its identifier and its reservation,
/// for that failure, in the name of its waiter.
pub proof fn a_failed_setup_turns_its_child_away(
    hold: AcceptHold,
    cm_id: CmId,
    error: Error,
    routed: bool,
)
    ensures
        ({
            let rejection = setup_rejection(hold, cm_id, error, routed);
            &&& rejection.token == hold.token
            &&& rejection.listener == hold.listener
            &&& rejection.request == hold.request
            &&& rejection.held == Some((cm_id, hold.reservation))
            &&& rejection.reason == InboundRejectReason::SetupFailure
            &&& rejection.error == error
            &&& rejection.routed == routed
        }),
{
}

/// What a listener decides on is noted with it, and a waiter that leaves without a pair
/// gives its permit back. A listener that is gone decides on nothing.
pub proof fn a_listeners_decision_is_noted(
    before: CmView,
    after: CmView,
    requests: SlotsView<AcceptRequest>,
    listener: ListenerToken,
    action: ListenerAction,
    request: RequestToken,
)
    requires
        listener_stepped(before, after, requests, listener, action),
    ensures
        !before.listeners.has(listener) ==> action is Idle && after == before,
        before.listeners.has(listener) ==> {
            &&& after.listeners.has(listener)
            &&& action == before.listeners.entry(listener)@.next(requests.entries).1
            &&& after.listeners.entry(listener)@ == before.listeners.entry(listener)@.next(
                requests.entries,
            ).0
            &&& after.listeners.slots.entries.remove(listener)
                =~= before.listeners.slots.entries.remove(listener)
            &&& after.listener_work == before.listener_work
        },
        (action == ListenerAction::CancelledBeforeSelection(request) || action
            == ListenerAction::FailUnselected(request)) && requests.entries.contains_key(request)
            ==> {
            &&& permits_left(requests, action).entries[request].permit is None
            &&& permits_left(requests, action).entries[request].result
                == requests.entries[request].result
            &&& permits_left(requests, action).entries.remove(request)
                =~= requests.entries.remove(request)
        },
        !(action is CancelledBeforeSelection || action is FailUnselected) ==> permits_left(
            requests,
            action,
        ) == requests,
{
}

/// A route knows the accept that waits for it and the connection that it leads to.
pub proof fn an_inbound_route_knows_how_far_it_is(state: InboundState)
    ensures
        match state {
            InboundState::PendingSelection { reservation, .. } => {
                &&& state.held() == Some(reservation)
                &&& state.referenced() is None
                &&& waiting_accept(state) is None
            },
            InboundState::AwaitEstablished { request, connection } => {
                &&& state.held() is None
                &&& state.referenced() == Some(connection)
                &&& waiting_accept(state) == Some(request)
            },
            InboundState::EstablishedAwaitingDelivery { request, connection } => {
                &&& state.held() is None
                &&& state.referenced() == Some(connection.token)
                &&& waiting_accept(state) == Some(request)
            },
            InboundState::Established { connection } => {
                &&& state.held() is None
                &&& state.referenced() == Some(connection.token)
                &&& waiting_accept(state) is None
            },
            InboundState::Closing { connection, .. } => {
                &&& state.held() is None
                &&& state.referenced() == Some(connection.token)
                &&& waiting_accept(state) is None
            },
            InboundState::Quarantined { connection } => {
                &&& state.held() is None
                &&& connection matches Some(kept) ==> state.referenced() == Some(kept.token)
                &&& connection is None ==> state.referenced() is None
                &&& waiting_accept(state) is None
            },
            InboundState::Transitioning => {
                &&& state.held() is None
                &&& state.referenced() is None
                &&& waiting_accept(state) is None
            },
        },
{
}

/// Of a listener that is gone nothing is noted.
pub proof fn a_listener_that_is_gone_has_no_books(
    before: CmView,
    after: CmView,
    requests: SlotsView<AcceptRequest>,
    listener: ListenerToken,
    route: u64,
)
    requires
        !before.listeners.has(listener),
    ensures
        slot_released(before, after, listener) ==> after == before,
        route_closing(before, after, listener, route) ==> after == before,
        work_looked_for(before, after, requests, listener) ==> after == before,
{
}

} // verus!
