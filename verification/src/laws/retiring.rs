//! What the retirement of a connection owes to its route.

use vstd::prelude::*;

use crate::actions::{Action, IoTerminalEvent};
use crate::cm::{CmView, InboundRetirementCompletion};
use crate::connection::ConnectionState;
use crate::error::Error;
use crate::laws::terms::{
    accept_answered, accept_failed_over, others_kept, pair_ended, route_gone,
};
use crate::registry::{ConnectionRegistry, Lifecycle, RegistryView};
use crate::requests::AcceptRequest;
use crate::retirement::{
    connection_destruction_failure, connection_destruction_text, inbound_finished,
    inbound_retirement, listener_destroyed, outbound_retirement, qp_quarantined,
    resources_quarantined, retirement_actions, retirement_quarantined, retirement_releasable,
    retirement_released, retirement_retried, route_retirement, Destroyed, RouteRetirement,
};
use crate::routes::{InboundPeerState, InboundState, OutboundState};
use crate::slots::{SlotKind, SlotsView};
use crate::terminal::{MemoizedTerminalResult, TakeOnceResult};
use crate::token::{ConnectionToken, ListenerToken, RequestToken};

verus! {

/// A route is released: its entry goes where there is no connection; where there is
/// one that is past its setup only the route goes; a connection that is still set up
/// keeps its route.
pub proof fn a_released_route_is_gone(view: RegistryView, token: ConnectionToken, completed: bool)
    requires
        view.has(token),
    ensures
        ({
            let after = ConnectionRegistry::route_released(view, token, completed);
            &&& others_kept(view, after, token)
            &&& view.entry(token).connection is None ==> {
                &&& !after.has(token)
                &&& token.slot < view.slots.marks.len() ==> {
                    &&& after.slots.marks.len() == view.slots.marks.len()
                    &&& after.slots.marks[token.slot as int].generation == token.generation
                    &&& after.slots.marks[token.slot as int].kind == if token.generation
                        == u32::MAX {
                        SlotKind::Retired { completed }
                    } else {
                        SlotKind::Vacant { completed }
                    }
                }
            }
            &&& view.entry(token).connection is Some && !(view.entry(token).lifecycle is Outbound)
                && !(view.entry(token).lifecycle is Inbound) ==> {
                &&& after.has(token)
                &&& after.entry(token).route is Unrouted
                &&& after.entry(token).connection == view.entry(token).connection
                &&& after.entry(token).lifecycle == view.entry(token).lifecycle
                &&& after.entry(token).quarantine == view.entry(token).quarantine
                &&& after.entry(token).setup == view.entry(token).setup
            }
            &&& view.entry(token).connection is Some && (view.entry(token).lifecycle is Outbound
                || view.entry(token).lifecycle is Inbound) ==> after == view
        }),
{
}

/// Retirement never refuses an established connection: for every outbound route that
/// leads to it and is past its establishment, delivered or not, whole, disconnected,
/// failed or closing, it is complete, and once the close of the connection has begun
/// the route is gone. No other entry changes.
pub proof fn established_outbound_routes_retire(
    before: RegistryView,
    after: RegistryView,
    token: ConnectionToken,
    connection: ConnectionToken,
    result: Result<RouteRetirement, Error>,
)
    requires
        outbound_retirement(before, after, token, connection, result),
        before.outbound(token),
        match before.outbound_route(token).state {
            OutboundState::EstablishedAwaitingDelivery { connection: led, .. } => led.token
                == connection,
            OutboundState::DisconnectedAwaitingDelivery { connection: led, .. } => led.token
                == connection,
            OutboundState::FailedAwaitingDelivery { connection: led, .. } => led.token
                == connection,
            OutboundState::Disconnected { connection: led } => led.token == connection,
            OutboundState::Failed { connection: led } => led.token == connection,
            OutboundState::Closing { connection: led } => led.token == connection,
            _ => false,
        },
    ensures
        result == Ok::<RouteRetirement, Error>(
            RouteRetirement::Complete { completion: None, reject: None },
        ),
        before.entry(token).connection is None || !(before.entry(token).lifecycle is Outbound
            || before.entry(token).lifecycle is Inbound) ==> route_gone(after, token),
        before.entry(token).connection is Some ==> after.connected(token) && after.connection(token)
            == before.connection(token),
        before.entry(token).connection is None && before.slots.tabled() ==> after.slots.lookup(
            token,
        ) is Duplicate,
        others_kept(before, after, token),
{
}

/// What is not an established route of the connection does not retire with it: a route
/// in transition is tried again, one that still resolves, establishes or is
/// quarantined is refused, and so is one of another connection; none of them changes.
/// Where there is no route, retirement is complete.
pub proof fn other_outbound_routes_stay(
    before: RegistryView,
    after: RegistryView,
    token: ConnectionToken,
    connection: ConnectionToken,
    result: Result<RouteRetirement, Error>,
)
    requires
        outbound_retirement(before, after, token, connection, result),
    ensures
        !before.outbound(token) ==> after == before && result == Ok::<RouteRetirement, Error>(
            RouteRetirement::Complete { completion: None, reject: None },
        ),
        before.outbound(token) ==> match before.outbound_route(token).state {
            OutboundState::Transitioning => {
                &&& after == before
                &&& result == Ok::<RouteRetirement, Error>(RouteRetirement::Retry)
            },
            OutboundState::AwaitAddr { .. } | OutboundState::AwaitRoute { .. }
            | OutboundState::AwaitEstablished { .. } | OutboundState::Quarantined { .. } => {
                &&& after == before
                &&& result is Err
            },
            OutboundState::EstablishedAwaitingDelivery { connection: led, .. } => led.token
                != connection ==> after == before && result is Err,
            OutboundState::DisconnectedAwaitingDelivery { connection: led, .. } => led.token
                != connection ==> after == before && result is Err,
            OutboundState::FailedAwaitingDelivery { connection: led, .. } => led.token
                != connection ==> after == before && result is Err,
            OutboundState::Disconnected { connection: led } => led.token != connection ==> after
                == before && result is Err,
            OutboundState::Failed { connection: led } => led.token != connection ==> after == before
                && result is Err,
            OutboundState::Closing { connection: led } => led.token != connection ==> after
                == before && result is Err,
        },
{
}

/// Retirement never refuses an accepted connection either. What the route owes is
/// handed on: a closing route hands on the request to end, the error to end it with,
/// the selection to end and the rejection that the peer has not had; a connection that
/// nobody took yet fails its request with the shutdown and ends its selection.
pub proof fn established_inbound_routes_retire(
    cm: CmView,
    cm_after: CmView,
    before: RegistryView,
    after: RegistryView,
    requests: SlotsView<AcceptRequest>,
    requests_after: SlotsView<AcceptRequest>,
    actions: Seq<Action>,
    actions_after: Seq<Action>,
    token: ConnectionToken,
    connection: ConnectionToken,
    result: Result<RouteRetirement, Error>,
)
    requires
        inbound_retirement(
            cm,
            cm_after,
            before,
            after,
            requests,
            requests_after,
            actions,
            actions_after,
            token,
            connection,
            result,
        ),
        before.inbound(token),
        match before.inbound_route(token).state {
            InboundState::EstablishedAwaitingDelivery { connection: led, .. } => led.token
                == connection,
            InboundState::Established { connection: led } => led.token == connection,
            InboundState::Closing { connection: led, .. } => led.token == connection,
            _ => false,
        },
    ensures
        result is Ok,
        result->Ok_0 is Complete,
        before.entry(token).connection is None && before.slots.tabled() ==> after.slots.lookup(
            token,
        ) is Duplicate,
        before.entry(token).connection is None || !(before.entry(token).lifecycle is Outbound
            || before.entry(token).lifecycle is Inbound) ==> route_gone(after, token),
        others_kept(before, after, token),
        match before.inbound_route(token).state {
            InboundState::Closing { request, completion, selected, peer, .. } => {
                &&& result->Ok_0->completion is Some
                &&& result->Ok_0->completion->0.listener == before.inbound_route(token).listener
                &&& result->Ok_0->completion->0.route == token.encoded()
                &&& result->Ok_0->completion->0.request == request
                &&& result->Ok_0->completion->0.result == completion
                &&& result->Ok_0->completion->0.selected == selected
                &&& result->Ok_0->reject == match peer {
                    InboundPeerState::PreAccept { reject } => reject,
                    InboundPeerState::Accepted => None,
                }
                &&& requests_after == requests
                &&& actions_after == actions
                &&& cm_after == cm
            },
            InboundState::Established { .. } => {
                &&& result->Ok_0->completion is None
                &&& result->Ok_0->reject is None
                &&& requests_after == requests
                &&& actions_after == actions
                &&& cm_after == cm
            },
            InboundState::EstablishedAwaitingDelivery { request, .. } => {
                &&& result->Ok_0->reject is None
                &&& !(requests.entries.contains_key(request)
                    && requests.entries[request].delivered) ==> {
                    &&& accept_failed_over(requests, requests_after, request, Error::DriverShutdown)
                    &&& cm_after == cm
                    &&& result->Ok_0->completion is Some
                    &&& result->Ok_0->completion->0.listener == before.inbound_route(token).listener
                    &&& result->Ok_0->completion->0.route == token.encoded()
                    &&& result->Ok_0->completion->0.request is None
                    &&& result->Ok_0->completion->0.result is None
                    &&& result->Ok_0->completion->0.selected
                }
                &&& requests.entries.contains_key(request)
                    && requests.entries[request].delivered ==> {
                    &&& result->Ok_0->completion is None
                    &&& pair_ended(
                        cm,
                        cm_after,
                        requests,
                        requests_after,
                        before.inbound_route(token).listener,
                        token.encoded(),
                    )
                }
                &&& actions_after =~= if requests.entries.contains_key(request) {
                    actions + seq![
                        Action::WakeAccept { request: requests.entries[request].token },
                    ]
                } else {
                    actions
                }
            },
            _ => true,
        },
{
}

/// An inbound route that is not yet accepted, or leads elsewhere, does not retire, and
/// nothing changes; one in transition is tried again.
pub proof fn other_inbound_routes_stay(
    cm: CmView,
    cm_after: CmView,
    before: RegistryView,
    after: RegistryView,
    requests: SlotsView<AcceptRequest>,
    requests_after: SlotsView<AcceptRequest>,
    actions: Seq<Action>,
    actions_after: Seq<Action>,
    token: ConnectionToken,
    connection: ConnectionToken,
    result: Result<RouteRetirement, Error>,
)
    requires
        inbound_retirement(
            cm,
            cm_after,
            before,
            after,
            requests,
            requests_after,
            actions,
            actions_after,
            token,
            connection,
            result,
        ),
        !before.inbound(token) || match before.inbound_route(token).state {
            InboundState::EstablishedAwaitingDelivery { connection: led, .. } => led.token
                != connection,
            InboundState::Established { connection: led } => led.token != connection,
            InboundState::Closing { connection: led, .. } => led.token != connection,
            _ => true,
        },
    ensures
        cm_after == cm,
        after == before,
        requests_after == requests,
        actions_after == actions,
        !before.inbound(token) ==> result == Ok::<RouteRetirement, Error>(
            RouteRetirement::Complete { completion: None, reject: None },
        ),
        before.inbound(token) ==> match before.inbound_route(token).state {
            InboundState::Transitioning => result == Ok::<RouteRetirement, Error>(
                RouteRetirement::Retry,
            ),
            _ => result is Err,
        },
{
}

/// A connection retires together with the route that it has, whichever way it was made.
pub proof fn a_connection_retires_with_its_route(
    cm: CmView,
    cm_after: CmView,
    before: RegistryView,
    after: RegistryView,
    requests: SlotsView<AcceptRequest>,
    requests_after: SlotsView<AcceptRequest>,
    actions: Seq<Action>,
    actions_after: Seq<Action>,
    token: ConnectionToken,
    result: Result<RouteRetirement, Error>,
)
    requires
        route_retirement(
            cm,
            cm_after,
            before,
            after,
            requests,
            requests_after,
            actions,
            actions_after,
            token,
            result,
        ),
        before.connected(token),
        before.entry(token).lifecycle is Retiring,
    ensures
        result matches Ok(RouteRetirement::Complete { .. }) ==> route_gone(after, token),
        after.connected(token),
        after.connection(token) == before.connection(token),
        before.entry(token).route is Unrouted ==> result == Ok::<RouteRetirement, Error>(
            RouteRetirement::Complete { completion: None, reject: None },
        ),
        result is Ok || after == before,
        others_kept(before, after, token),
{
}

/// A retired connection leaves the registry and frees its queue pair's number, its
/// slot counts as completed, and nobody else's entry or number changes. Its waiters
/// are woken and its I/O side learns that it is closed.
pub proof fn a_retired_connection_leaves_nothing(
    view: RegistryView,
    token: ConnectionToken,
    connection: ConnectionState,
    actions: Seq<Action>,
)
    requires
        view.connected(token),
        view.slots.tabled(),
    ensures
        ({
            let after = retirement_released(view, token);
            &&& !after.has(token)
            &&& !after.qp_index.contains_key(view.connection(token).qp_num)
            &&& after.qp_index =~= view.qp_index.remove(view.connection(token).qp_num)
            &&& after.slots.entries =~= view.slots.entries.remove(token)
            &&& after.slots.lookup(token) is Duplicate
            &&& after.deadlines == view.deadlines
            &&& after.pending_outbound == view.pending_outbound
            &&& after.cancellations == view.cancellations
            &&& after.retirements == view.retirements
            &&& after.spent == view.spent + if token.generation == u32::MAX {
                1int
            } else {
                0
            }
        }),
        retirement_actions(connection, actions) =~= actions + seq![
            Action::WakeClose { connection: connection.token },
            Action::IoEvent { connection: connection.token, event: IoTerminalEvent::Closed },
        ],
{
}

/// A retirement that must wait is queued again, last, and has not begun; only a
/// connection that retires and is not quarantined is queued.
pub proof fn a_retirement_is_tried_again(view: RegistryView, token: ConnectionToken)
    ensures
        view.has(token) && view.entry(token).quarantine is None && view.entry(
            token,
        ).lifecycle is Retiring ==> {
            let after = retirement_retried(view, token);
            &&& after.retirements =~= view.retirements + seq![token]
            &&& after.entry(token).lifecycle == (Lifecycle::Retiring { started: false })
            &&& after.entry(token).connection == view.entry(token).connection
            &&& after.entry(token).route == view.entry(token).route
            &&& after.entry(token).quarantine is None
            &&& after.slots.entries.remove(token) =~= view.slots.entries.remove(token)
            &&& after.qp_index == view.qp_index
        },
        !(view.has(token) && view.entry(token).quarantine is None && view.entry(
            token,
        ).lifecycle is Retiring) ==> retirement_retried(view, token) == view,
{
}

/// Once the identifier is gone, what the route owed is paid: the request ends with the
/// error that was kept for it, and its waiter is told.
pub proof fn a_finished_retirement_ends_its_request(
    owed: InboundRetirementCompletion,
    cm: CmView,
    cm_after: CmView,
    requests: SlotsView<AcceptRequest>,
    requests_after: SlotsView<AcceptRequest>,
    actions: Seq<Action>,
    actions_after: Seq<Action>,
    request: RequestToken,
    error: Error,
)
    requires
        inbound_finished(
            Some(owed),
            cm,
            cm_after,
            requests,
            requests_after,
            actions,
            actions_after,
        ),
        owed.request == Some(request),
        owed.result == Some(error),
    ensures
        !owed.selected ==> accept_answered(requests, requests_after, request, Err(error)),
        !owed.selected ==> cm_after == cm,
        owed.selected ==> pair_ended(
            cm,
            cm_after,
            requests,
            requests_after,
            owed.listener,
            owed.route as int,
        ),
        requests.entries.contains_key(request) && requests_after.entries.contains_key(request)
            ==> requests_after.entries[request].result == if requests.entries[request].result is Pending {
            TakeOnceResult::Ready(Err(error))
        } else {
            requests.entries[request].result
        },
        actions_after =~= if requests.entries.contains_key(request)
            && requests.entries[request].result is Pending {
            actions + seq![Action::WakeAccept { request: requests.entries[request].token }]
        } else {
            actions
        },
{
}

/// A connection leaves the registry exactly where the index leads to it, its retirement
/// has begun and it is not quarantined.
pub proof fn a_retirement_that_began_is_released(view: RegistryView, token: ConnectionToken)
    ensures
        retirement_releasable(view, token) <==> view.connected(token) && view.qp_index.contains_key(
            view.connection(token).qp_num,
        ) && view.qp_index[view.connection(token).qp_num] == token && view.entry(
            token,
        ).quarantine is None && view.entry(token).lifecycle == (Lifecycle::Retiring {
            started: true,
        }),
{
}

/// A retirement that fails quarantines its connection and fails the accept that it owed
/// an answer; the waiter is told.
pub proof fn a_failed_retirement_fails_its_request(
    token: ConnectionToken,
    owed: InboundRetirementCompletion,
    error: Error,
    cm: CmView,
    cm_after: CmView,
    before: RegistryView,
    after: RegistryView,
    requests: SlotsView<AcceptRequest>,
    requests_after: SlotsView<AcceptRequest>,
    actions: Seq<Action>,
    actions_after: Seq<Action>,
    request: RequestToken,
)
    requires
        retirement_quarantined(
            token,
            Some(owed),
            error,
            cm,
            cm_after,
            before,
            after,
            requests,
            requests_after,
            actions,
            actions_after,
        ),
        before.connected(token),
        owed.request == Some(request),
        requests.entries.contains_key(request),
    ensures
        after.connected(token),
        !(before.entry(token).quarantine is None && before.entry(token).lifecycle is Retired)
            ==> after.entry(token).quarantine == Some(true),
        after.connection(token).close_result is Some,
        others_kept(before, after, token),
        requests_after.entries.contains_key(request),
        !(requests_after.entries[request].result is Pending),
        !(requests_after.entries[request].result matches TakeOnceResult::Ready(Ok(_))),
        requests.entries[request].result is Pending ==> (
        requests_after.entries[request].result matches TakeOnceResult::Ready(Err(failure))
            && failure is Verbs),
        actions_after.last() == (Action::WakeAccept { request: requests.entries[request].token }),
        actions_after.contains(
            Action::WakeClose { connection: before.connection(token).token },
        ),
{
    let told = ConnectionRegistry::quarantine_actions(before, after, token, actions);
    assert(told[actions.len() as int] == (Action::WakeClose {
        connection: before.connection(token).token,
    }));
    assert(actions_after[actions.len() as int] == told[actions.len() as int]);
}

/// A queue pair, or resources, that could not be destroyed quarantine the connection,
/// with the provider's error as the cause where there is one.
pub proof fn what_is_not_destroyed_is_quarantined(
    before: RegistryView,
    after: RegistryView,
    token: ConnectionToken,
    cause: Result<bool, Error>,
    whole: bool,
)
    requires
        if whole {
            resources_quarantined(before, after, token, cause)
        } else {
            qp_quarantined(before, after, token, cause)
        },
        before.connected(token),
    ensures
        after.connected(token),
        !(before.entry(token).quarantine is None && before.entry(token).lifecycle is Retired)
            ==> after.entry(token).quarantine == Some(true),
        after.connection(token).close_result is Some,
        after.connection(token).close_result->0 is Failed,
        before.connection(token).close_result is None && cause is Err ==> (after.connection(
            token,
        ).close_result->0->Failed_0 matches Error::ConnectionDestroyQuarantined { cause: told }
            && told@ == cause->Err_0.text()),
        others_kept(before, after, token),
{
}

/// A failure to destroy an identifier is told with its context, in the provider's kind
/// and words; an identifier that went without its connection is an error too.
pub proof fn a_failed_identifier_is_told_with_its_context(
    token: ConnectionToken,
    reply: Result<(), Error>,
    error: Error,
)
    requires
        connection_destruction_failure(token, reply, error),
    ensures
        reply is Ok ==> error is InvalidConfig,
        reply matches Err(cause) ==> (cause matches Error::Verbs(source) ==> (
        error matches Error::Verbs(told) && told.kind == source.kind && told.message@
            == connection_destruction_text(token) + ": "@ + source.message@)),
        reply matches Err(cause) ==> (!(cause is Verbs) ==> error is InvalidConfig),
{
}

/// A listener whose identifier is destroyed leaves the table, closed, with the outcome
/// of its close; one whose identifier would not go stays, and its close tells why.
pub proof fn a_destroyed_listener_shows_its_outcome(
    cm: CmView,
    cm_after: CmView,
    listener: ListenerToken,
    reply: Result<(), Error>,
    result: Result<Destroyed, Error>,
)
    requires
        listener_destroyed(cm, cm_after, listener, reply, result),
    ensures
        result is Ok <==> reply is Ok,
        reply is Ok ==> !cm_after.listeners.has(listener),
        reply is Ok && !cm.listeners.has(listener) ==> cm_after == cm
            && result->Ok_0 matches Destroyed::Listener(None),
        reply is Ok && cm.listeners.has(listener) ==> (result->Ok_0 matches Destroyed::Listener(
            Some(entry),
        ) && !entry@.admission.open && entry@.close.outcome == match cm.listeners.entry(
            listener,
        )@.close.outcome {
            Some(earlier) => Some(earlier),
            None => Some(
                match cm.listeners.entry(listener)@.failure {
                    Some(failure) => MemoizedTerminalResult::Failed(failure),
                    None => MemoizedTerminalResult::Success,
                },
            ),
        }),
        reply is Err && cm.listeners.has(listener) ==> {
            &&& cm_after.listeners.has(listener)
            &&& cm_after.listeners.entry(listener)@.close.outcome == match cm.listeners.entry(
                listener,
            )@.close.outcome {
                Some(earlier) => Some(earlier),
                None => Some(MemoizedTerminalResult::Failed(result->Err_0)),
            }
            &&& cm_after.routes == cm.routes
            &&& cm_after.destructions == cm.destructions
        },
        reply is Err && !cm.listeners.has(listener) ==> cm_after == cm,
{
}

} // verus!
