//! What an outbound connect owes, from its start to its end.

use vstd::prelude::*;

use crate::actions::{Action, IoTerminalEvent};
use crate::admission::ConnectionReservation;
use crate::cm::{CmView, PendingCmDestruction};
use crate::connection::{CmId, ConnectionPoster};
use crate::error::Error;
use crate::event::{CmEventReject, EventDisposition};
use crate::laws::terms::{connect_answered, others_kept};
use crate::outbound::{
    addr_resolved, attached, cancellation_processed, connect_asked, connect_gate, disconnected,
    established, failure_handled, identity_recorded, identity_refusal, quarantined_route,
    route_opened, route_resolved, routed_request, OutboundStep,
};
use crate::registry::{Lifecycle, RegistryView};
use crate::requests::OutboundRequest;
use crate::routes::OutboundState;
use crate::slots::SlotsView;
use crate::terminal::MemoizedTerminalResult;
use crate::token::{CmRouteToken, ConnectionToken, RequestToken};

verus! {

/// The peer of a held request is told of its end if it was still waiting.
pub open spec fn connect_told(
    connects: SlotsView<OutboundRequest>,
    request: RequestToken,
    actions: Seq<Action>,
    actions_after: Seq<Action>,
) -> bool {
    actions_after =~= if connects.entries.contains_key(request)
        && connects.entries[request].completion.result is Pending {
        actions + seq![Action::WakeConnect { request }]
    } else {
        actions
    }
}

/// Whether a held request was cancelled.
pub open spec fn given_up(connects: SlotsView<OutboundRequest>, request: RequestToken) -> bool {
    connects.entries.contains_key(request) && connects.entries[request].completion.cancelled
}

/// A failure ends a connect that waits for its address or its route: its request, if
/// pending, is answered with the failure, or with the shutdown where it was cancelled
/// or the engine shuts down; its waiter is told; the identifier is queued for
/// destruction; and its route is gone.
pub proof fn a_failure_ends_a_resolving_connect(
    cm: CmView,
    cm_after: CmView,
    before: RegistryView,
    after: RegistryView,
    requests: SlotsView<OutboundRequest>,
    requests_after: SlotsView<OutboundRequest>,
    actions: Seq<Action>,
    actions_after: Seq<Action>,
    token: CmRouteToken,
    shutting_down: bool,
    failure: Error,
    result: Result<OutboundStep, Error>,
    cm_id: CmId,
    request: RequestToken,
    reservation: ConnectionReservation,
)
    requires
        failure_handled(
            cm,
            cm_after,
            before,
            after,
            requests,
            requests_after,
            actions,
            actions_after,
            token,
            shutting_down,
            failure,
            result,
        ),
        before.outbound(token),
        before.entry(token).connection is None,
        before.outbound_route(token).state == (OutboundState::AwaitAddr {
            cm_id,
            request,
            reservation,
        }) || before.outbound_route(token).state == (OutboundState::AwaitRoute {
            cm_id,
            request,
            reservation,
        }),
    ensures
        result == Ok::<OutboundStep, Error>(
            OutboundStep::Done(
                if given_up(requests, request) || shutting_down {
                    EventDisposition::IgnoredAfterShutdown
                } else {
                    EventDisposition::Handled
                },
            ),
        ),
        connect_answered(
            requests,
            requests_after,
            request,
            Err(
                if given_up(requests, request) || shutting_down {
                    Error::DriverShutdown
                } else {
                    failure
                },
            ),
        ),
        connect_told(requests, request, actions, actions_after),
        cm_after.destructions =~= cm.destructions + seq![PendingCmDestruction::Route(cm_id)],
        !after.has(token),
        before.slots.tabled() ==> after.slots.lookup(token) is Duplicate,
        others_kept(before, after, token),
{
}

/// A failure ends a connect whose connection is registered: the step is the teardown
/// of that connection, in the name of that request and with that failure, and the
/// route is closing, no longer establishing.
pub proof fn a_failure_ends_an_establishing_connect(
    cm: CmView,
    cm_after: CmView,
    before: RegistryView,
    after: RegistryView,
    requests: SlotsView<OutboundRequest>,
    requests_after: SlotsView<OutboundRequest>,
    actions: Seq<Action>,
    actions_after: Seq<Action>,
    token: CmRouteToken,
    shutting_down: bool,
    failure: Error,
    result: Result<OutboundStep, Error>,
    request: RequestToken,
    connection: ConnectionToken,
)
    requires
        failure_handled(
            cm,
            cm_after,
            before,
            after,
            requests,
            requests_after,
            actions,
            actions_after,
            token,
            shutting_down,
            failure,
            result,
        ),
        before.outbound(token),
        before.outbound_route(token).state == (OutboundState::AwaitEstablished {
            request,
            connection,
        }),
    ensures
        before.connected(connection) ==> {
            &&& result == Ok::<OutboundStep, Error>(
                OutboundStep::Teardown { connection, failed: Some((request, failure)) },
            )
            &&& after.outbound(token)
            &&& after.outbound_route(token).state is Closing
            &&& after.outbound_route(token).state->Closing_connection.token == connection
            &&& after.connected(connection)
            &&& others_kept(before, after, token)
        },
        !before.connected(connection) ==> result is Err,
        requests_after == requests,
        actions_after == actions,
        cm_after == cm,
{
}

/// A failure after establishment ends the connection: its I/O is closed, its waiters
/// are woken and its I/O side learns of the failure; the first reason for its close
/// stays; the step is its teardown. Whether somebody still waits for the delivery of
/// the connection stays on record.
pub proof fn a_failure_ends_an_established_connection(
    cm: CmView,
    cm_after: CmView,
    before: RegistryView,
    after: RegistryView,
    requests: SlotsView<OutboundRequest>,
    requests_after: SlotsView<OutboundRequest>,
    actions: Seq<Action>,
    actions_after: Seq<Action>,
    token: CmRouteToken,
    shutting_down: bool,
    failure: Error,
    result: Result<OutboundStep, Error>,
    connection: ConnectionToken,
)
    requires
        failure_handled(
            cm,
            cm_after,
            before,
            after,
            requests,
            requests_after,
            actions,
            actions_after,
            token,
            shutting_down,
            failure,
            result,
        ),
        before.outbound(token),
        before.connected(connection),
        match before.outbound_route(token).state {
            OutboundState::EstablishedAwaitingDelivery { connection: led, .. } => led.token
                == connection,
            OutboundState::DisconnectedAwaitingDelivery { connection: led, .. } => led.token
                == connection,
            OutboundState::Disconnected { connection: led } => led.token == connection,
            _ => false,
        },
    ensures
        result == Ok::<OutboundStep, Error>(OutboundStep::Teardown { connection, failed: None }),
        after.connected(connection),
        after.connection(connection).io_closed,
        after.connection(connection).close_result == match before.connection(
            connection,
        ).close_result {
            Some(earlier) => Some(earlier),
            None => Some(MemoizedTerminalResult::Failed(failure)),
        },
        actions_after =~= actions + seq![
            Action::WakeClose { connection: before.connection(connection).token },
            Action::IoEvent { connection, event: IoTerminalEvent::Terminal(failure) },
        ],
        after.outbound(token),
        match before.outbound_route(token).state {
            OutboundState::EstablishedAwaitingDelivery { request, .. } => if requests.entries.contains_key(
                request,
            ) && requests.entries[request].delivered {
                after.outbound_route(token).state is Failed
                    && after.outbound_route(token).state->Failed_connection.token == connection
            } else {
                after.outbound_route(token).state is FailedAwaitingDelivery
                    && after.outbound_route(token).state->FailedAwaitingDelivery_request == request
                    && after.outbound_route(
                    token,
                ).state->FailedAwaitingDelivery_connection.token == connection
            },
            OutboundState::DisconnectedAwaitingDelivery { request, .. } => if requests.entries.contains_key(
                request,
            ) && requests.entries[request].delivered {
                after.outbound_route(token).state is Failed
                    && after.outbound_route(token).state->Failed_connection.token == connection
            } else {
                after.outbound_route(token).state is FailedAwaitingDelivery
                    && after.outbound_route(token).state->FailedAwaitingDelivery_request == request
                    && after.outbound_route(
                    token,
                ).state->FailedAwaitingDelivery_connection.token == connection
            },
            _ => after.outbound_route(token).state is Failed && after.outbound_route(
                token,
            ).state->Failed_connection.token == connection,
        },
        requests_after == requests,
        cm_after == cm,
{
}

/// Only the first failure of a route counts: of a route that failed before, closes or
/// is quarantined nothing changes and the event is a duplicate.
pub proof fn a_second_failure_is_a_duplicate(
    cm: CmView,
    cm_after: CmView,
    before: RegistryView,
    after: RegistryView,
    requests: SlotsView<OutboundRequest>,
    requests_after: SlotsView<OutboundRequest>,
    actions: Seq<Action>,
    actions_after: Seq<Action>,
    token: CmRouteToken,
    shutting_down: bool,
    failure: Error,
    result: Result<OutboundStep, Error>,
)
    requires
        failure_handled(
            cm,
            cm_after,
            before,
            after,
            requests,
            requests_after,
            actions,
            actions_after,
            token,
            shutting_down,
            failure,
            result,
        ),
    ensures
        (!before.outbound(token) || before.outbound_route(token).state is FailedAwaitingDelivery
            || before.outbound_route(token).state is Failed || before.outbound_route(
            token,
        ).state is Closing || before.outbound_route(token).state is Quarantined) <==> (result
            == Ok::<OutboundStep, Error>(
            OutboundStep::Done(EventDisposition::Rejected(CmEventReject::Duplicate)),
        )),
        result == Ok::<OutboundStep, Error>(
            OutboundStep::Done(EventDisposition::Rejected(CmEventReject::Duplicate)),
        ) || result is Err && before.outbound_route(token).state is Transitioning ==> {
            &&& cm_after == cm
            &&& after == before
            &&& requests_after == requests
            &&& actions_after == actions
        },
{
}

/// A resolved address leads to the resolution of the route, and a resolved route to
/// the queue pair, for the very identifier, request and reservation that waited; the
/// request stays pending. Where the request was cancelled or the engine shuts down,
/// the connect ends instead. Any other route takes the event for a duplicate.
pub proof fn resolutions_advance_a_connect(
    cm: CmView,
    cm_after: CmView,
    before: RegistryView,
    after: RegistryView,
    requests: SlotsView<OutboundRequest>,
    requests_after: SlotsView<OutboundRequest>,
    actions: Seq<Action>,
    actions_after: Seq<Action>,
    token: CmRouteToken,
    shutting_down: bool,
    step: OutboundStep,
    address: bool,
)
    requires
        if address {
            addr_resolved(
                cm,
                cm_after,
                before,
                after,
                requests,
                requests_after,
                actions,
                actions_after,
                token,
                shutting_down,
                step,
            )
        } else {
            route_resolved(
                cm,
                cm_after,
                before,
                after,
                requests,
                requests_after,
                actions,
                actions_after,
                token,
                shutting_down,
                step,
            )
        },
    ensures
        !(before.outbound(token) && if address {
            before.outbound_route(token).state is AwaitAddr
        } else {
            before.outbound_route(token).state is AwaitRoute
        }) ==> {
            &&& step == OutboundStep::Done(EventDisposition::Rejected(CmEventReject::Duplicate))
            &&& cm_after == cm
            &&& after == before
            &&& requests_after == requests
            &&& actions_after == actions
        },
        before.outbound(token) && address ==> (before.outbound_route(
            token,
        ).state matches OutboundState::AwaitAddr { cm_id, request, reservation } ==> if given_up(
            requests,
            request,
        ) || shutting_down {
            &&& step == OutboundStep::Done(EventDisposition::Handled)
            &&& connect_answered(requests, requests_after, request, Err(Error::DriverShutdown))
            &&& connect_told(requests, request, actions, actions_after)
            &&& cm_after.destructions =~= cm.destructions + seq![
                PendingCmDestruction::Route(cm_id),
            ]
            &&& before.entry(token).connection is None ==> !after.has(token)
            &&& before.entry(token).connection is None && before.slots.tabled()
                ==> after.slots.lookup(token) is Duplicate
            &&& others_kept(before, after, token)
        } else {
            &&& step matches OutboundStep::ResolveRoute(hold) && hold.token == token && hold.cm_id
                == cm_id && hold.request == request && hold.reservation == reservation
            &&& requests_after == requests
            &&& actions_after == actions
            &&& cm_after == cm
            &&& after.outbound(token)
            &&& others_kept(before, after, token)
        }),
        before.outbound(token) && !address ==> (before.outbound_route(
            token,
        ).state matches OutboundState::AwaitRoute { cm_id, request, reservation } ==> if given_up(
            requests,
            request,
        ) || shutting_down {
            &&& step == OutboundStep::Done(EventDisposition::Handled)
            &&& connect_answered(requests, requests_after, request, Err(Error::DriverShutdown))
            &&& connect_told(requests, request, actions, actions_after)
            &&& cm_after.destructions =~= cm.destructions + seq![
                PendingCmDestruction::Route(cm_id),
            ]
            &&& before.entry(token).connection is None ==> !after.has(token)
            &&& before.entry(token).connection is None && before.slots.tabled()
                ==> after.slots.lookup(token) is Duplicate
            &&& others_kept(before, after, token)
        } else {
            &&& step matches OutboundStep::BuildQp(hold) && hold.token == token && hold.cm_id
                == cm_id && hold.request == request && hold.reservation == reservation
            &&& requests_after == requests
            &&& actions_after == actions
            &&& cm_after == cm
            &&& after.outbound(token)
            &&& others_kept(before, after, token)
        }),
{
}

/// An established connect succeeds: where its connection is registered, the engine
/// runs on and the request was not cancelled, the connection is active, its request,
/// if pending, is answered with the connection's token, its waiter is told, and the
/// route waits for the delivery. Where the engine shuts down or the request was
/// cancelled the connection is torn down in the name of the request instead.
pub proof fn an_established_connect_succeeds(
    before: RegistryView,
    after: RegistryView,
    requests: SlotsView<OutboundRequest>,
    requests_after: SlotsView<OutboundRequest>,
    actions: Seq<Action>,
    actions_after: Seq<Action>,
    token: CmRouteToken,
    shutting_down: bool,
    result: Result<OutboundStep, Error>,
    request: RequestToken,
    connection: ConnectionToken,
)
    requires
        established(
            before,
            after,
            requests,
            requests_after,
            actions,
            actions_after,
            token,
            shutting_down,
            result,
        ),
        before.outbound(token),
        before.outbound_route(token).state == (OutboundState::AwaitEstablished {
            request,
            connection,
        }),
        before.connected(connection),
        before.entry(connection).quarantine is None,
        before.entry(connection).lifecycle is Outbound || before.entry(
            connection,
        ).lifecycle is Inbound,
    ensures
        given_up(requests, request) || shutting_down ==> {
            &&& result == Ok::<OutboundStep, Error>(
                OutboundStep::Teardown {
                    connection,
                    failed: Some((request, Error::DriverShutdown)),
                },
            )
            &&& after.outbound_route(token).state is Closing
            &&& after.outbound_route(token).state->Closing_connection.token == connection
            &&& requests_after == requests
            &&& actions_after == actions
        },
        !(given_up(requests, request) || shutting_down) ==> {
            &&& result == Ok::<OutboundStep, Error>(OutboundStep::Done(EventDisposition::Handled))
            &&& after.entry(connection).lifecycle == Lifecycle::Active
            &&& after.connected(connection)
            &&& after.outbound(token)
            &&& after.outbound_route(token).state is EstablishedAwaitingDelivery
            &&& after.outbound_route(token).state->EstablishedAwaitingDelivery_request == request
            &&& after.outbound_route(
                token,
            ).state->EstablishedAwaitingDelivery_connection.token == connection
            &&& connect_answered(requests, requests_after, request, Ok(connection))
            &&& connect_told(requests, request, actions, actions_after)
        },
{
}

/// An established event that no route waits for changes nothing and is a duplicate.
pub proof fn an_unawaited_establishment_is_a_duplicate(
    before: RegistryView,
    after: RegistryView,
    requests: SlotsView<OutboundRequest>,
    requests_after: SlotsView<OutboundRequest>,
    actions: Seq<Action>,
    actions_after: Seq<Action>,
    token: CmRouteToken,
    shutting_down: bool,
    result: Result<OutboundStep, Error>,
)
    requires
        established(
            before,
            after,
            requests,
            requests_after,
            actions,
            actions_after,
            token,
            shutting_down,
            result,
        ),
        !before.outbound(token) || !(before.outbound_route(token).state is AwaitEstablished),
    ensures
        result == Ok::<OutboundStep, Error>(
            OutboundStep::Done(EventDisposition::Rejected(CmEventReject::Duplicate)),
        ),
        after == before,
        requests_after == requests,
        actions_after == actions,
{
}

/// A disconnect ends a connect that still waits for its establishment, and the I/O of
/// one that was established; both lead to a teardown. A route that was disconnected
/// before takes it for a duplicate.
pub proof fn a_disconnect_ends_a_connection(
    before: RegistryView,
    after: RegistryView,
    requests: SlotsView<OutboundRequest>,
    actions: Seq<Action>,
    actions_after: Seq<Action>,
    token: CmRouteToken,
    aborted: Error,
    result: Result<OutboundStep, Error>,
)
    requires
        disconnected(
            before,
            after,
            requests,
            actions,
            actions_after,
            token,
            aborted,
            result,
        ),
        before.outbound(token),
    ensures
        match before.outbound_route(token).state {
            OutboundState::AwaitEstablished { request, connection } => {
                &&& actions_after == actions
                &&& before.connected(connection) ==> {
                    &&& result == Ok::<OutboundStep, Error>(
                        OutboundStep::Teardown { connection, failed: Some((request, aborted)) },
                    )
                    &&& after.outbound_route(token).state is Closing
                    &&& after.outbound_route(token).state->Closing_connection.token == connection
                    &&& others_kept(before, after, token)
                }
                &&& !before.connected(connection) ==> result is Err
            },
            OutboundState::EstablishedAwaitingDelivery { request, connection } => if before.connected(
                connection.token,
            ) {
                &&& result == Ok::<OutboundStep, Error>(
                    OutboundStep::Teardown { connection: connection.token, failed: None },
                )
                &&& after.connected(connection.token)
                &&& after.connection(connection.token).io_closed
                &&& after.connection(connection.token).close_result == before.connection(
                    connection.token,
                ).close_result
                &&& actions_after =~= actions + seq![
                    Action::IoEvent {
                        connection: connection.token,
                        event: IoTerminalEvent::Disconnected,
                    },
                ]
                &&& if requests.entries.contains_key(request)
                    && requests.entries[request].delivered {
                    after.outbound_route(token).state is Disconnected && after.outbound_route(
                        token,
                    ).state->Disconnected_connection == connection
                } else {
                    after.outbound_route(token).state is DisconnectedAwaitingDelivery
                        && after.outbound_route(token).state->DisconnectedAwaitingDelivery_request
                        == request && after.outbound_route(
                        token,
                    ).state->DisconnectedAwaitingDelivery_connection == connection
                }
            } else {
                &&& result == Ok::<OutboundStep, Error>(
                    OutboundStep::Done(EventDisposition::Handled),
                )
                &&& before.entry(token).connection is None ==> !after.has(token)
                &&& actions_after == actions
            },
            OutboundState::DisconnectedAwaitingDelivery { .. } | OutboundState::Disconnected { .. }
            | OutboundState::FailedAwaitingDelivery { .. } | OutboundState::Failed { .. }
            | OutboundState::Closing { .. } | OutboundState::Quarantined { .. } => {
                &&& result == Ok::<OutboundStep, Error>(
                    OutboundStep::Done(EventDisposition::Rejected(CmEventReject::Duplicate)),
                )
                &&& after == before
                &&& actions_after == actions
            },
            OutboundState::AwaitAddr { .. } | OutboundState::AwaitRoute { .. }
            | OutboundState::Transitioning => {
                &&& result == Ok::<OutboundStep, Error>(
                    OutboundStep::Done(EventDisposition::Rejected(CmEventReject::Unexpected)),
                )
                &&& after == before
                &&& actions_after == actions
            },
        },
{
}

/// A cancelled connect whose connection was established, and not handed out, is torn
/// down, and its result can no longer be taken: whatever waits for delivery, also
/// after a disconnect or a failure, is reached.
pub proof fn a_cancellation_tears_the_connection_down(
    before: RegistryView,
    after: RegistryView,
    requests: SlotsView<OutboundRequest>,
    requests_after: SlotsView<OutboundRequest>,
    request: RequestToken,
    step: Option<ConnectionToken>,
    token: CmRouteToken,
    connection: ConnectionToken,
)
    requires
        cancellation_processed(before, after, requests, requests_after, request, step),
        requests.entries.contains_key(request),
        requests.entries[request].route_token != 0,
        token == crate::token::SlotToken::decoded(requests.entries[request].route_token),
        before.outbound(token),
        before.connected(connection),
        match before.outbound_route(token).state {
            OutboundState::EstablishedAwaitingDelivery { connection: led, .. } => led.token
                == connection,
            OutboundState::DisconnectedAwaitingDelivery { connection: led, .. } => led.token
                == connection,
            OutboundState::FailedAwaitingDelivery { connection: led, .. } => led.token
                == connection,
            _ => false,
        },
    ensures
        step == Some(connection),
        after.outbound(token),
        after.outbound_route(token).state is Closing,
        after.outbound_route(token).state->Closing_connection.token == connection,
        others_kept(before, after, token),
        requests.entries[request].completion.result is Ready
            ==> requests_after.entries[request].completion.result is Taken,
        !(requests.entries[request].completion.result is Ready)
            ==> requests_after.entries[request].completion.result
            == requests.entries[request].completion.result,
        requests_after.entries.remove(request) =~= requests.entries.remove(request),
{
}

/// Only a connection that waits for its delivery is torn down by a cancellation: with
/// a connect that still resolves or establishes, or one whose connection was handed
/// out, it changes neither tables nor requests.
pub proof fn a_cancellation_spares_what_does_not_await_delivery(
    before: RegistryView,
    after: RegistryView,
    requests: SlotsView<OutboundRequest>,
    requests_after: SlotsView<OutboundRequest>,
    request: RequestToken,
    step: Option<ConnectionToken>,
    token: CmRouteToken,
)
    requires
        cancellation_processed(before, after, requests, requests_after, request, step),
        token == crate::token::SlotToken::decoded(requests.entries[request].route_token),
        !requests.entries.contains_key(request) || requests.entries[request].route_token == 0
            || !before.outbound(token) || !(before.outbound_route(
            token,
        ).state is EstablishedAwaitingDelivery || before.outbound_route(
            token,
        ).state is DisconnectedAwaitingDelivery || before.outbound_route(
            token,
        ).state is FailedAwaitingDelivery),
    ensures
        step is None,
        after == before,
        requests_after == requests,
{
}

/// The peer is asked to connect on the identifier that the connection holds; a
/// connection that lost its identifier, or has none, is torn down in the name of the
/// request.
pub proof fn the_peer_is_asked_on_the_held_identifier(
    before: RegistryView,
    after: RegistryView,
    token: CmRouteToken,
    request: RequestToken,
    result: Result<OutboundStep, Error>,
)
    requires
        connect_asked(before, after, token, request, result),
        before.connected(token),
    ensures
        match before.connection(token).poster {
            ConnectionPoster::Verbs(resources) if resources.cm_owner is Some => {
                &&& result matches Ok(
                    OutboundStep::Connect { token: asked, request: asking, raw_id },
                ) && asked == token && asking == request && raw_id == resources.cm_owner->0.raw_id
                &&& after == before
            },
            ConnectionPoster::Verbs(_) => {
                &&& result == Ok::<OutboundStep, Error>(
                    OutboundStep::Teardown {
                        connection: token,
                        failed: Some((request, Error::TransportClosed)),
                    },
                )
                &&& after.outbound_route(token).state is Closing
                &&& others_kept(before, after, token)
            },
            ConnectionPoster::Synthetic { .. } => {
                &&& result matches Ok(
                    OutboundStep::Teardown { connection, failed: Some((asking, error)) },
                ) && connection == token && asking == request && error is InvalidConfig
                &&& after.outbound_route(token).state is Closing
                &&& others_kept(before, after, token)
            },
        },
{
}

/// Setup goes on to the connect unless the request was cancelled or the engine shuts
/// down.
pub proof fn only_a_wanted_connect_goes_on(
    requests: SlotsView<OutboundRequest>,
    request: RequestToken,
    shutting_down: bool,
)
    ensures
        connect_gate(requests, request, shutting_down) is Ok <==> !shutting_down && !given_up(
            requests,
            request,
        ),
        connect_gate(requests, request, shutting_down) is Err ==> connect_gate(
            requests,
            request,
            shutting_down,
        ) == Err::<(), Error>(Error::DriverShutdown),
{
}

/// An identifier is taken for a route exactly where it carries the route's own token
/// and no other route has its context key.
pub proof fn a_route_takes_its_own_identifier(cm: CmView, token: CmRouteToken, cm_id: CmId)
    ensures
        identity_refusal(cm, token, cm_id) is None <==> cm_id.context_token is Some
            && cm_id.context_token->0 == token.encoded() && !cm.routes.contains_key(
            cm_id.context_key,
        ),
{
}

/// A route on record carries the numbers of its identifier, and its request the token
/// of the route; a route that opens waits for nothing yet and has no connection.
pub proof fn routes_and_requests_name_each_other(
    view: RegistryView,
    token: CmRouteToken,
    cm_id: CmId,
    requests: SlotsView<OutboundRequest>,
    request: RequestToken,
)
    requires
        view.outbound(token),
    ensures
        identity_recorded(view, token, cm_id).outbound(token),
        identity_recorded(view, token, cm_id).outbound_route(token).raw_id == cm_id.raw_id,
        identity_recorded(view, token, cm_id).outbound_route(token).context_key
            == cm_id.context_key,
        identity_recorded(view, token, cm_id).outbound_route(token).state
            == view.outbound_route(token).state,
        others_kept(view, identity_recorded(view, token, cm_id), token),
        requests.entries.contains_key(request) ==> {
            let named = routed_request(requests, request, token);
            &&& named.entries[request].route_token == token.encoded()
            &&& named.entries[request].completion == requests.entries[request].completion
            &&& named.entries[request].delivered == requests.entries[request].delivered
            &&& named.entries.remove(request) =~= requests.entries.remove(request)
        },
        quarantined_route(view, token).outbound_route(token).state is Quarantined,
        others_kept(view, quarantined_route(view, token), token),
{
}

/// A route opens in a slot of its own: no entry that was there changes, and the new
/// one has neither connection, quarantine nor identifier.
pub proof fn an_opened_route_is_blank(before: RegistryView, after: RegistryView, token: CmRouteToken)
    requires
        route_opened(before, after, token),
        before.slots.may_issue(token),
    ensures
        after.outbound(token),
        after.entry(token).connection is None,
        after.entry(token).quarantine is None,
        after.entry(token).setup is None,
        after.outbound_route(token).state is Transitioning,
        after.outbound_route(token).raw_id == 0,
        after.outbound_route(token).context_key == 0,
        others_kept(before, after, token),
        after.slots.marks[token.slot as int].generation == token.generation,
        after.slots.marks[token.slot as int].kind is Occupied,
{
}

/// A connection that is attached to its route is found by its queue pair, keeps the
/// route, has no operation and is open; its reservation counts as established.
pub proof fn an_attached_connection_is_found(
    before: RegistryView,
    after: RegistryView,
    token: CmRouteToken,
    poster: ConnectionPoster,
    local_addr: Option<String>,
    peer_addr: Option<String>,
    reservation: ConnectionReservation,
)
    requires
        attached(before, after, token, poster, local_addr, peer_addr, reservation),
        before.has(token),
        reservation.is_fresh(),
    ensures
        after.connected(token),
        after.connection(token).token == token,
        after.connection(token).poster == poster,
        match poster {
            ConnectionPoster::Synthetic { qp_num, .. } => {
                &&& after.connection(token).qp_num == qp_num
                &&& after.qp_index == before.qp_index.insert(qp_num, token)
            },
            ConnectionPoster::Verbs(resources) => {
                &&& after.connection(token).qp_num == resources.qp_num
                &&& after.qp_index == before.qp_index.insert(resources.qp_num, token)
            },
        },
        after.connection(token).local_addr == local_addr,
        after.connection(token).peer_addr == peer_addr,
        after.connection(token).io_ledger.accepted@.len() == 0,
        !after.connection(token).io_closed,
        after.connection(token).close_result is None,
        after.connection(token).admission is Some,
        after.connection(token).admission->0.state is Established,
        after.connection(token).admission->0.qp_counted,
        after.entry(token).route == before.entry(token).route,
        after.entry(token).lifecycle == before.entry(token).lifecycle,
        after.entry(token).quarantine == before.entry(token).quarantine,
        after.slots.entries.remove(token) =~= before.slots.entries.remove(token),
{
}

/// A route establishes as long as it resolves, waits for its establishment or is in
/// transition between these; it was disconnected once it disconnected, failed, closes
/// or is quarantined. A route knows the request that waits for it and the connection
/// that it leads to.
pub proof fn a_route_knows_how_far_it_is(state: OutboundState)
    ensures
        match state {
            OutboundState::AwaitAddr { request, reservation, .. } => {
                &&& state.establishing() && !state.disconnected()
                &&& state.waiting_request() == Some(request)
                &&& state.referenced() is None
                &&& state.held() == Some(reservation)
            },
            OutboundState::AwaitRoute { request, reservation, .. } => {
                &&& state.establishing() && !state.disconnected()
                &&& state.waiting_request() == Some(request)
                &&& state.referenced() is None
                &&& state.held() == Some(reservation)
            },
            OutboundState::AwaitEstablished { request, connection } => {
                &&& state.establishing() && !state.disconnected()
                &&& state.waiting_request() == Some(request)
                &&& state.referenced() == Some(connection)
                &&& state.held() is None
            },
            OutboundState::EstablishedAwaitingDelivery { request, connection } => {
                &&& !state.establishing() && !state.disconnected()
                &&& state.waiting_request() == Some(request)
                &&& state.referenced() == Some(connection.token)
                &&& state.held() is None
            },
            OutboundState::DisconnectedAwaitingDelivery { request, connection } => {
                &&& !state.establishing() && state.disconnected()
                &&& state.waiting_request() == Some(request)
                &&& state.referenced() == Some(connection.token)
                &&& state.held() is None
            },
            OutboundState::FailedAwaitingDelivery { request, connection } => {
                &&& !state.establishing() && state.disconnected()
                &&& state.waiting_request() == Some(request)
                &&& state.referenced() == Some(connection.token)
                &&& state.held() is None
            },
            OutboundState::Disconnected { connection } => {
                &&& !state.establishing() && state.disconnected()
                &&& state.waiting_request() is None
                &&& state.referenced() == Some(connection.token)
            },
            OutboundState::Failed { connection } => {
                &&& !state.establishing() && state.disconnected()
                &&& state.waiting_request() is None
                &&& state.referenced() == Some(connection.token)
            },
            OutboundState::Closing { connection } => {
                &&& !state.establishing() && state.disconnected()
                &&& state.waiting_request() is None
                &&& state.referenced() == Some(connection.token)
            },
            OutboundState::Quarantined { connection } => {
                &&& !state.establishing() && state.disconnected()
                &&& state.waiting_request() is None
                &&& connection matches Some(kept) ==> state.referenced() == Some(kept.token)
                &&& connection is None ==> state.referenced() is None
            },
            OutboundState::Transitioning => {
                &&& state.establishing() && !state.disconnected()
                &&& state.waiting_request() is None
                &&& state.referenced() is None
            },
        },
{
}

} // verus!
