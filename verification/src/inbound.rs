//! Listener creation, inbound admission, acceptance and the events of inbound routes.

use vstd::prelude::*;
use vstd::pervasive::unreached;

use crate::actions::{Action, IoTerminalEvent, ReactorActions, STEP_PUBLICATIONS};
use crate::cm::{CmState, CmView};
use crate::connection::ConnectionState;
use crate::error::{Error, IoError, IoErrorKind};
use crate::event::{CmEventReject, CmEventSnapshot, CmEventType, EventDisposition};
use crate::listener::{accept_claimed, accept_completed, accept_failed, accept_woken};
use crate::listener::fail_undelivered_accept;
use crate::registry::{ConnectionEntry, ConnectionRegistry, Lifecycle, RegistryView};
use crate::requests::{accept_cancelled, accept_delivered};
use crate::requests::{is_accept_cancelled, AcceptRequest};
use crate::retirement::selection_released;
use crate::routes::{EstablishedConnectionRoute, InboundPeerState, InboundState};
use crate::slots::{SlotRegistry, SlotsView};
use crate::text::owned;
use crate::token::{CmRouteToken, ConnectionToken, ListenerToken, RequestToken};

verus! {

/// The error that the end of a listener gives its accepts; without a listener that
/// is ending, the engine's own.
pub open spec fn ending_error(cm: CmView, listener: ListenerToken) -> Error {
    if cm.listeners.has(listener) && cm.listeners.entry(listener)@.is_closing() {
        cm.listeners.entry(listener)@.close_error()
    } else {
        Error::DriverShutdown
    }
}

pub fn cancellation_error(cm: &CmState, listener: ListenerToken) -> (error: Error)
    requires
        cm.wf(),
    ensures
        error == ending_error(cm@, listener),
{
    match cm.listeners.get(listener) {
        Some(entry) => if entry.is_closing() {
            entry.close_error()
        } else {
            Error::DriverShutdown
        },
        None => Error::DriverShutdown,
    }
}

/// The closing state of an inbound route whose peer was accepted.
pub open spec fn accepted_closing(connection: ConnectionToken, selected: bool) -> InboundState {
    InboundState::Closing {
        connection: EstablishedConnectionRoute { token: connection },
        request: None,
        completion: None,
        selected,
        peer: InboundPeerState::Accepted,
    }
}

fn closing_state(connection: ConnectionToken, selected: bool) -> (state: InboundState)
    ensures
        state == accepted_closing(connection, selected),
{
    InboundState::Closing {
        connection: EstablishedConnectionRoute { token: connection },
        request: None,
        completion: None,
        selected,
        peer: InboundPeerState::Accepted,
    }
}

/// Whether closing a connection finds its inbound route open behind an accepted peer.
pub open spec fn close_takes_route(
    view: RegistryView,
    token: CmRouteToken,
    connection: ConnectionToken,
) -> bool {
    &&& view.connected(connection)
    &&& view.connection(connection).inbound_accept_succeeded
    &&& view.inbound(token)
    &&& view.inbound_route(token).state.referenced() == Some(connection)
    &&& match view.inbound_route(token).state {
        InboundState::AwaitEstablished { .. } => true,
        InboundState::EstablishedAwaitingDelivery { .. } => true,
        InboundState::Established { .. } => true,
        _ => false,
    }
}

/// The accept that still stands behind an inbound route.
pub open spec fn waiting_accept(state: InboundState) -> Option<RequestToken> {
    match state {
        InboundState::AwaitEstablished { request, .. } => Some(request),
        InboundState::EstablishedAwaitingDelivery { request, .. } => Some(request),
        _ => None,
    }
}

/// The registry once the inbound route of a connection was prepared for its close.
pub open spec fn close_prepared(
    view: RegistryView,
    token: CmRouteToken,
    connection: ConnectionToken,
) -> RegistryView {
    if close_takes_route(view, token, connection) {
        view.set_inbound_state(
            token,
            accepted_closing(
                connection,
                !(view.inbound_route(token).state is Established),
            ),
        )
    } else {
        view
    }
}

/// The accepts once the inbound route of a connection was prepared for its close:
/// the one that still waits for the connection fails.
pub open spec fn close_prepared_requests(
    cm: CmView,
    view: RegistryView,
    requests: SlotsView<AcceptRequest>,
    token: CmRouteToken,
    connection: ConnectionToken,
) -> SlotsView<AcceptRequest> {
    match waiting_accept(view.inbound_route(token).state) {
        Some(request) if close_takes_route(view, token, connection) => accept_failed(
            requests,
            request,
            ending_error(cm, view.inbound_route(token).listener),
        ),
        _ => requests,
    }
}

/// The publications once the inbound route of a connection was prepared for its close.
pub open spec fn close_prepared_actions(
    view: RegistryView,
    requests: SlotsView<AcceptRequest>,
    actions: Seq<Action>,
    token: CmRouteToken,
    connection: ConnectionToken,
) -> Seq<Action> {
    match waiting_accept(view.inbound_route(token).state) {
        Some(request) if close_takes_route(view, token, connection) => accept_claimed(
            requests,
            request,
            actions,
        ),
        _ => actions,
    }
}

/// Prepares the inbound route of a connection for the connection's close.
///
/// A route whose peer was accepted goes to its closing state, and an accept that
/// still waits for the connection fails. Any other route stays as it is.
pub fn prepare_selected_connection_close(
    cm: &CmState,
    connections: &mut ConnectionRegistry,
    requests: &mut SlotRegistry<AcceptRequest>,
    token: CmRouteToken,
    connection: ConnectionToken,
    actions: &mut ReactorActions,
) -> (result: Result<bool, Error>)
    requires
        cm.wf(),
        old(connections).wf(),
        old(requests).wf(),
    ensures
        final(connections).wf(),
        final(requests).wf(),
        final(requests).spent() == old(requests).spent(),
        result == if old(connections)@.connected(connection) {
            Ok::<bool, Error>(true)
        } else {
            Err(Error::TransportClosed)
        },
        final(connections)@ == close_prepared(old(connections)@, token, connection),
        final(requests)@ == close_prepared_requests(
            cm@,
            old(connections)@,
            old(requests)@,
            token,
            connection,
        ),
        final(actions)@ == close_prepared_actions(
            old(connections)@,
            old(requests)@,
            old(actions)@,
            token,
            connection,
        ),
        final(actions)@.len() <= old(actions)@.len() + STEP_PUBLICATIONS,
{
    match connections.connection(connection) {
        None => {
            return Err(Error::TransportClosed);
        },
        Some(state) => {
            if !state.inbound_accept_succeeded {
                return Ok(true);
            }
        },
    }
    let (listener, request): (ListenerToken, Option<RequestToken>) = match connections.inbound_route(
        token,
    ) {
        None => {
            return Ok(true);
        },
        Some(route) => {
            if !route.state.references_connection(connection) {
                return Ok(true);
            }
            match &route.state {
                InboundState::AwaitEstablished { request, .. }
                | InboundState::EstablishedAwaitingDelivery { request, .. } => (
                    route.listener,
                    Some(*request),
                ),
                InboundState::Established { .. } => (route.listener, None),
                _ => {
                    return Ok(true);
                },
            }
        },
    };
    if let Some(request) = request {
        let error = cancellation_error(cm, listener);
        let _ = fail_undelivered_accept(requests, request, error, actions);
    }
    let _ = connections.set_inbound_state(token, closing_state(connection, request.is_some()));
    Ok(true)
}

/// What the event of an inbound route leads to.
#[derive(Clone, Copy, Debug, PartialEq, Eq, Structural)]
pub enum InboundStep {
    /// Nothing more.
    Done(EventDisposition),
    /// Close and retire a connection.
    Teardown { connection: ConnectionToken },
}

/// The registry while the state of an inbound route is out.
pub open spec fn inbound_taken(view: RegistryView, token: CmRouteToken) -> RegistryView {
    view.set_inbound_state(token, InboundState::Transitioning)
}

/// What closing a connection whose peer was accepted reports and leaves: the
/// connection to close and retire, or nothing where its user has it already.
pub open spec fn accepted_closed(
    cm: CmView,
    cm_after: CmView,
    before: RegistryView,
    after: RegistryView,
    requests: SlotsView<AcceptRequest>,
    requests_after: SlotsView<AcceptRequest>,
    actions: Seq<Action>,
    actions_after: Seq<Action>,
    token: CmRouteToken,
    request: RequestToken,
    connection: ConnectionToken,
    error: Error,
    result: Result<Option<ConnectionToken>, Error>,
) -> bool {
    let failed = accept_failed(requests, request, error);
    if !before.connected(connection) || !before.connection(connection).inbound_accept_succeeded {
        &&& if before.connected(connection) {
            result matches Err(lost) && lost.is_invalid_config(
                "accepted inbound teardown lacks successful provider accept evidence"@,
            )
        } else {
            result == Err::<Option<ConnectionToken>, Error>(Error::TransportClosed)
        }
        &&& cm_after == cm
        &&& after == before
        &&& requests_after == requests
        &&& actions_after == actions
    } else {
        &&& actions_after == accept_claimed(requests, request, actions)
        &&& if accept_delivered(requests.entries, request) {
            let listener = before.inbound_route(token).listener;
            let route = token.encoded() as u64;
            &&& result == Ok::<Option<ConnectionToken>, Error>(None)
            &&& after == before.set_inbound_state(
                token,
                InboundState::Established {
                    connection: EstablishedConnectionRoute { token: connection },
                },
            )
            &&& CmState::ends_selection(cm, cm_after, listener, route, failed.entries)
            &&& requests_after == selection_released(cm, failed, listener, route)
        } else {
            &&& result == Ok::<Option<ConnectionToken>, Error>(Some(connection))
            &&& after == before.set_inbound_state(token, accepted_closing(connection, true))
            &&& cm_after == cm
            &&& requests_after == failed
        }
    }
}

/// Closes a connection whose peer was accepted, for `error`.
///
/// A connection that its user has taken stays; its selection at the listener ends.
pub fn close_accepted_connection(
    cm: &mut CmState,
    connections: &mut ConnectionRegistry,
    requests: &mut SlotRegistry<AcceptRequest>,
    token: CmRouteToken,
    request: RequestToken,
    connection: ConnectionToken,
    error: Error,
    actions: &mut ReactorActions,
) -> (result: Result<Option<ConnectionToken>, Error>)
    requires
        old(cm).wf(),
        old(connections).wf(),
        old(requests).wf(),
        old(connections)@.inbound(token),
    ensures
        final(cm).wf(),
        final(connections).wf(),
        final(requests).wf(),
        final(requests).spent() == old(requests).spent(),
        accepted_closed(
            old(cm)@,
            final(cm)@,
            old(connections)@,
            final(connections)@,
            old(requests)@,
            final(requests)@,
            old(actions)@,
            final(actions)@,
            token,
            request,
            connection,
            error,
            result,
        ),
        final(actions)@.len() <= old(actions)@.len() + STEP_PUBLICATIONS,
{
    match connections.connection(connection) {
        None => {
            return Err(Error::TransportClosed);
        },
        Some(state) => {
            if !state.inbound_accept_succeeded {
                return Err(
                    Error::invalid(
                        "accepted inbound teardown lacks successful provider accept evidence",
                    ),
                );
            }
        },
    }
    let delivered: bool = fail_undelivered_accept(requests, request, error, actions);
    if delivered {
        let listener = connections.inbound_listener(token);
        let _ = connections.set_inbound_state(
            token,
            InboundState::Established { connection: EstablishedConnectionRoute::new(connection) },
        );
        if let Some(listener) = listener {
            let _ = cm.finish_selected_route(listener, token.encode(), requests);
        }
        return Ok(None);
    }
    let _ = connections.set_inbound_state(token, closing_state(connection, true));
    Ok(Some(connection))
}

/// What cancelling an inbound route reports and leaves.
pub open spec fn route_cancelled(
    cm: CmView,
    cm_after: CmView,
    before: RegistryView,
    after: RegistryView,
    requests: SlotsView<AcceptRequest>,
    requests_after: SlotsView<AcceptRequest>,
    actions: Seq<Action>,
    actions_after: Seq<Action>,
    token: CmRouteToken,
    result: Result<Option<ConnectionToken>, Error>,
) -> bool {
    let route = before.inbound_route(token);
    let connection = route.state.referenced();
    match waiting_accept(route.state) {
        Some(request) if before.inbound(token) => if route.state is AwaitEstablished
            && !before.connected(connection->0) {
            &&& result matches Err(error) && error.is_invalid_config(
                "registered inbound connection disappeared during CM transition"@,
            )
            &&& cm_after == cm
            &&& after == inbound_taken(before, token)
            &&& requests_after == requests
            &&& actions_after == actions
        } else {
            accepted_closed(
                cm,
                cm_after,
                inbound_taken(before, token),
                after,
                requests,
                requests_after,
                actions,
                actions_after,
                token,
                request,
                connection->0,
                ending_error(cm, route.listener),
                result,
            )
        },
        _ => {
            &&& result == Ok::<Option<ConnectionToken>, Error>(None)
            &&& cm_after == cm
            &&& after == before
            &&& requests_after == requests
            &&& actions_after == actions
        },
    }
}

/// Cancels an inbound route whose accept nobody waits for any more, or whose
/// listener is ending. The connection that comes back is to be closed and retired.
pub fn cancel_inbound_route(
    cm: &mut CmState,
    connections: &mut ConnectionRegistry,
    requests: &mut SlotRegistry<AcceptRequest>,
    token: CmRouteToken,
    actions: &mut ReactorActions,
) -> (result: Result<Option<ConnectionToken>, Error>)
    requires
        old(cm).wf(),
        old(connections).wf(),
        old(requests).wf(),
    ensures
        final(cm).wf(),
        final(connections).wf(),
        final(requests).wf(),
        final(requests).spent() == old(requests).spent(),
        route_cancelled(
            old(cm)@,
            final(cm)@,
            old(connections)@,
            final(connections)@,
            old(requests)@,
            final(requests)@,
            old(actions)@,
            final(actions)@,
            token,
            result,
        ),
        final(actions)@.len() <= old(actions)@.len() + STEP_PUBLICATIONS,
{
    let (listener, request, connection, registered): (
        ListenerToken,
        RequestToken,
        ConnectionToken,
        bool,
    ) = match connections.inbound_route(token) {
        None => {
            return Ok(None);
        },
        Some(route) => match &route.state {
            InboundState::AwaitEstablished { request, connection } => (
                route.listener,
                *request,
                *connection,
                connections.connection(*connection).is_some(),
            ),
            InboundState::EstablishedAwaitingDelivery { request, connection } => (
                route.listener,
                *request,
                connection.token,
                true,
            ),
            _ => {
                return Ok(None);
            },
        },
    };
    let _ = connections.take_inbound_state(token);
    let error = cancellation_error(cm, listener);
    if !registered {
        return Err(
            Error::invalid("registered inbound connection disappeared during CM transition"),
        );
    }
    close_accepted_connection(cm, connections, requests, token, request, connection, error, actions)
}

/// Whether an inbound route awaits the delivery of its connection to `request`.
pub open spec fn awaits_delivery(
    view: RegistryView,
    token: CmRouteToken,
    request: RequestToken,
) -> bool {
    view.inbound(token) && match view.inbound_route(token).state {
        InboundState::EstablishedAwaitingDelivery { request: current, .. } => current == request,
        _ => false,
    }
}

/// Releases a delivered connection from its listener: the route is established for
/// its user, whatever closes meanwhile.
pub fn acknowledge_accept_delivery(
    cm: &mut CmState,
    connections: &mut ConnectionRegistry,
    requests: &mut SlotRegistry<AcceptRequest>,
    listener: ListenerToken,
    request: RequestToken,
    token: CmRouteToken,
) -> (acknowledged: bool)
    requires
        old(cm).wf(),
        old(connections).wf(),
        old(requests).wf(),
    ensures
        final(cm).wf(),
        final(connections).wf(),
        final(requests).wf(),
        final(requests).spent() == old(requests).spent(),
        acknowledged == awaits_delivery(old(connections)@, token, request),
        if acknowledged {
            let route = token.encoded() as u64;
            &&& old(connections)@.inbound_route(token).state.referenced() is Some
            &&& final(connections)@ == old(connections)@.set_inbound_state(
                token,
                InboundState::Established {
                    connection: EstablishedConnectionRoute {
                        token: old(connections)@.inbound_route(token).state.referenced()->0,
                    },
                },
            )
            &&& CmState::ends_selection(
                old(cm)@,
                final(cm)@,
                listener,
                route,
                old(requests)@.entries,
            )
            &&& final(requests)@ == selection_released(
                old(cm)@,
                old(requests)@,
                listener,
                route,
            )
        } else {
            &&& final(cm)@ == old(cm)@
            &&& final(connections)@ == old(connections)@
            &&& final(requests)@ == old(requests)@
        },
{
    let connection: EstablishedConnectionRoute = match connections.inbound_route(token) {
        None => {
            return false;
        },
        Some(route) => match &route.state {
            InboundState::EstablishedAwaitingDelivery { request: current, connection } => {
                if *current != request {
                    return false;
                }
                *connection
            },
            _ => {
                return false;
            },
        },
    };
    let _ = connections.set_inbound_state(token, InboundState::Established { connection });
    let _ = cm.finish_selected_route(listener, token.encode(), requests);
    true
}

/// Completes an accept with its connection, if the table still holds it; a
/// cancelled waiter is not woken.
pub fn complete_accept_success(
    requests: &mut SlotRegistry<AcceptRequest>,
    request: RequestToken,
    connection: ConnectionToken,
    actions: &mut ReactorActions,
)
    requires
        old(requests).wf(),
    ensures
        final(requests).wf(),
        final(requests)@ == accept_completed(old(requests)@, request, Ok(connection)),
        final(requests).spent() == old(requests).spent(),
        final(actions)@ == if accept_cancelled(old(requests)@.entries, request) {
            old(actions)@
        } else {
            accept_woken(old(requests)@, request, old(actions)@)
        },
{
    if let Some(value) = requests.get_mut(request) {
        value.complete_success_into(connection, actions);
    }
}

/// The error that ends an accept at the moment of its establishment.
pub open spec fn establishment_error(
    cm: CmView,
    requests: SlotsView<AcceptRequest>,
    listener: ListenerToken,
    request: RequestToken,
) -> Error {
    if accept_cancelled(requests.entries, request) || !cm.listeners.has(listener) {
        Error::DriverShutdown
    } else {
        cm.listeners.entry(listener)@.close_error()
    }
}

/// What an establishment event of an inbound route reports and leaves.
pub open spec fn inbound_established(
    cm: CmView,
    cm_after: CmView,
    before: RegistryView,
    after: RegistryView,
    requests: SlotsView<AcceptRequest>,
    requests_after: SlotsView<AcceptRequest>,
    actions: Seq<Action>,
    actions_after: Seq<Action>,
    token: CmRouteToken,
    shutting_down: bool,
    result: Result<InboundStep, Error>,
) -> bool {
    let route = before.inbound_route(token);
    match route.state {
        InboundState::AwaitEstablished { request, connection } if before.inbound(token) => {
            let ended = accept_cancelled(requests.entries, request) || !cm.listeners.has(
                route.listener,
            ) || cm.listeners.entry(route.listener)@.is_closing() || shutting_down;
            if !before.connected(connection) {
                &&& result matches Err(error) && error.is_invalid_config(
                    "registered inbound connection disappeared during CM transition"@,
                )
                &&& cm_after == cm
                &&& after == inbound_taken(before, token)
                &&& requests_after == requests
                &&& actions_after == actions
            } else if ended {
                exists|closed: Result<Option<ConnectionToken>, Error>| #[trigger]
                    accepted_closed(
                        cm,
                        cm_after,
                        inbound_taken(before, token),
                        after,
                        requests,
                        requests_after,
                        actions,
                        actions_after,
                        token,
                        request,
                        connection,
                        establishment_error(cm, requests, route.listener, request),
                        closed,
                    ) && result == teardown_of(closed)
            } else {
                let awaiting = before.set_inbound_state(
                    token,
                    InboundState::EstablishedAwaitingDelivery {
                        request,
                        connection: EstablishedConnectionRoute { token: connection },
                    },
                );
                &&& result == Ok::<InboundStep, Error>(
                    InboundStep::Done(EventDisposition::Handled),
                )
                &&& cm_after == cm
                &&& after == if awaiting.entry(connection).is_registered() {
                    awaiting.set(
                        connection,
                        ConnectionEntry {
                            lifecycle: Lifecycle::Active,
                            ..awaiting.entry(connection)
                        },
                    )
                } else {
                    awaiting
                }
                &&& requests_after == accept_completed(requests, request, Ok(connection))
                &&& actions_after == accept_woken(requests, request, actions)
            }
        },
        _ => {
            &&& result == Ok::<InboundStep, Error>(
                InboundStep::Done(EventDisposition::Rejected(CmEventReject::Duplicate)),
            )
            &&& cm_after == cm
            &&& after == before
            &&& requests_after == requests
            &&& actions_after == actions
        },
    }
}

/// The step that a closed connection leads to.
pub open spec fn teardown_of(closed: Result<Option<ConnectionToken>, Error>) -> Result<
    InboundStep,
    Error,
> {
    match closed {
        Ok(Some(connection)) => Ok(InboundStep::Teardown { connection }),
        Ok(None) => Ok(InboundStep::Done(EventDisposition::Handled)),
        Err(error) => Err(error),
    }
}

fn close_step(closed: Result<Option<ConnectionToken>, Error>) -> (step: Result<InboundStep, Error>)
    ensures
        step == teardown_of(closed),
{
    match closed {
        Ok(Some(connection)) => Ok(InboundStep::Teardown { connection }),
        Ok(None) => Ok(InboundStep::Done(EventDisposition::Handled)),
        Err(error) => Err(error),
    }
}

/// Takes in that an inbound connection was established.
///
/// The accept gets its connection, unless it, its listener or the engine is ending.
pub fn handle_established(
    cm: &mut CmState,
    connections: &mut ConnectionRegistry,
    requests: &mut SlotRegistry<AcceptRequest>,
    token: CmRouteToken,
    shutting_down: bool,
    actions: &mut ReactorActions,
) -> (result: Result<InboundStep, Error>)
    requires
        old(cm).wf(),
        old(connections).wf(),
        old(requests).wf(),
    ensures
        final(cm).wf(),
        final(connections).wf(),
        final(requests).wf(),
        final(requests).spent() == old(requests).spent(),
        inbound_established(
            old(cm)@,
            final(cm)@,
            old(connections)@,
            final(connections)@,
            old(requests)@,
            final(requests)@,
            old(actions)@,
            final(actions)@,
            token,
            shutting_down,
            result,
        ),
{
    let (listener, request, connection): (ListenerToken, RequestToken, ConnectionToken) =
        match connections.inbound_route(token) {
        None => {
            return Ok(InboundStep::Done(EventDisposition::Rejected(CmEventReject::Duplicate)));
        },
        Some(route) => match &route.state {
            InboundState::AwaitEstablished { request, connection } => (
                route.listener,
                *request,
                *connection,
            ),
            _ => {
                return Ok(
                    InboundStep::Done(EventDisposition::Rejected(CmEventReject::Duplicate)),
                );
            },
        },
    };
    if connections.connection(connection).is_none() {
        let _ = connections.take_inbound_state(token);
        return Err(
            Error::invalid("registered inbound connection disappeared during CM transition"),
        );
    }
    let cancelled: bool = is_accept_cancelled(requests, request);
    let (listener_closed, listener_error): (bool, Error) = match cm.listeners.get(listener) {
        Some(entry) => (entry.is_closing(), entry.close_error()),
        None => (true, Error::DriverShutdown),
    };
    if cancelled || listener_closed || shutting_down {
        let error = if cancelled {
            Error::DriverShutdown
        } else {
            listener_error
        };
        assert(error == establishment_error(old(cm)@, old(requests)@, listener, request));
        let _ = connections.take_inbound_state(token);
        let closed = close_accepted_connection(
            cm,
            connections,
            requests,
            token,
            request,
            connection,
            error,
            actions,
        );
        assert(accepted_closed(
            old(cm)@,
            cm@,
            inbound_taken(old(connections)@, token),
            connections@,
            old(requests)@,
            requests@,
            old(actions)@,
            actions@,
            token,
            request,
            connection,
            establishment_error(old(cm)@, old(requests)@, listener, request),
            closed,
        ));
        return close_step(closed);
    }
    let _ = connections.set_inbound_state(
        token,
        InboundState::EstablishedAwaitingDelivery {
            request,
            connection: EstablishedConnectionRoute::new(connection),
        },
    );
    let _ = connections.mark_active(connection);
    complete_accept_success(requests, request, connection, actions);
    Ok(InboundStep::Done(EventDisposition::Handled))
}

/// What a terminal event of an accepted connection reports and leaves, the state of
/// its route being out.
pub open spec fn terminal_closed(
    before: RegistryView,
    after: RegistryView,
    requests: SlotsView<AcceptRequest>,
    requests_after: SlotsView<AcceptRequest>,
    actions: Seq<Action>,
    actions_after: Seq<Action>,
    token: CmRouteToken,
    connection: ConnectionToken,
    request: Option<RequestToken>,
    error: Error,
    record_failure: bool,
    result: Result<InboundStep, Error>,
) -> bool {
    if !before.connected(connection) || !before.connection(connection).inbound_accept_succeeded {
        &&& result matches Err(lost) && lost.is_invalid_config(
            if before.connected(connection) {
                "terminal inbound event lacks successful provider accept evidence"@
            } else {
                "terminal inbound event lost its registered connection owner"@
            },
        )
        &&& after == before
        &&& requests_after == requests
        &&& actions_after == actions
    } else {
        let state = before.connection(connection);
        let ended = if record_failure {
            state.cm_failed(error)
        } else {
            ConnectionState { io_closed: true, ..state }
        };
        let told = if record_failure {
            actions.push(Action::WakeClose { connection: state.token }).push(
                Action::IoEvent { connection, event: IoTerminalEvent::Terminal(error) },
            )
        } else {
            actions.push(Action::IoEvent { connection, event: IoTerminalEvent::Disconnected })
        };
        &&& result == Ok::<InboundStep, Error>(InboundStep::Teardown { connection })
        &&& after == before.set_connection(connection, ended).set_inbound_state(
            token,
            accepted_closing(connection, request is Some),
        )
        &&& requests_after == match request {
            Some(waiting) => accept_failed(requests, waiting, error),
            None => requests,
        }
        &&& actions_after == match request {
            Some(waiting) => accept_claimed(requests, waiting, told),
            None => told,
        }
    }
}

/// Ends an accepted connection that a terminal event came for: its I/O ends, an
/// accept that still waits for it fails, and it is to be closed and retired.
pub fn close_after_inbound_terminal(
    connections: &mut ConnectionRegistry,
    requests: &mut SlotRegistry<AcceptRequest>,
    token: CmRouteToken,
    connection: ConnectionToken,
    request: Option<RequestToken>,
    error: Error,
    record_failure: bool,
    actions: &mut ReactorActions,
) -> (result: Result<InboundStep, Error>)
    requires
        old(connections).wf(),
        old(requests).wf(),
        old(connections)@.inbound(token),
    ensures
        final(connections).wf(),
        final(requests).wf(),
        final(requests).spent() == old(requests).spent(),
        terminal_closed(
            old(connections)@,
            final(connections)@,
            old(requests)@,
            final(requests)@,
            old(actions)@,
            final(actions)@,
            token,
            connection,
            request,
            error,
            record_failure,
            result,
        ),
{
    match connections.connection(connection) {
        None => {
            return Err(
                Error::invalid("terminal inbound event lost its registered connection owner"),
            );
        },
        Some(state) => {
            if !state.inbound_accept_succeeded {
                return Err(
                    Error::invalid(
                        "terminal inbound event lacks successful provider accept evidence",
                    ),
                );
            }
        },
    }
    if let Some(state) = connections.connection_mut(connection) {
        let event = if record_failure {
            state.mark_cm_failure_into(error.clone(), actions)
        } else {
            state.mark_disconnected()
        };
        actions.push(Action::IoEvent { connection, event });
    }
    if let Some(waiting) = request {
        let _ = fail_undelivered_accept(requests, waiting, error, actions);
    }
    let _ = connections.set_inbound_state(token, closing_state(connection, request.is_some()));
    Ok(InboundStep::Teardown { connection })
}

/// What a terminal event of a closing inbound route reports and leaves.
pub open spec fn closing_terminal(
    before: RegistryView,
    after: RegistryView,
    actions: Seq<Action>,
    actions_after: Seq<Action>,
    token: CmRouteToken,
    result: Result<InboundStep, Error>,
) -> bool {
    match before.inbound_route(token).state {
        InboundState::Closing { connection, request, completion, selected, peer } => match peer {
            InboundPeerState::PreAccept { reject: Some(_) } => if before.connected(
                connection.token,
            ) {
                &&& result == Ok::<InboundStep, Error>(
                    InboundStep::Teardown { connection: connection.token },
                )
                &&& after == before.set_connection(
                    connection.token,
                    ConnectionState { io_closed: true, ..before.connection(connection.token) },
                ).set_inbound_state(
                    token,
                    InboundState::Closing {
                        connection,
                        request,
                        completion,
                        selected,
                        peer: InboundPeerState::PreAccept { reject: None },
                    },
                )
                &&& actions_after == actions.push(
                    Action::IoEvent {
                        connection: connection.token,
                        event: IoTerminalEvent::Disconnected,
                    },
                )
            } else {
                &&& result matches Err(error) && error.is_invalid_config(
                    "closing inbound terminal event lost its registered connection owner"@,
                )
                &&& after == inbound_taken(before, token)
                &&& actions_after == actions
            },
            _ => {
                &&& result == Ok::<InboundStep, Error>(
                    InboundStep::Done(EventDisposition::Rejected(CmEventReject::Duplicate)),
                )
                &&& after == before
                &&& actions_after == actions
            },
        },
        _ => false,
    }
}

/// Takes in a terminal event of a closing inbound route: a reject that was still
/// owed to the peer is not owed any more; without one the event is a duplicate.
fn finish_closing_terminal(
    connections: &mut ConnectionRegistry,
    token: CmRouteToken,
    actions: &mut ReactorActions,
) -> (result: Result<InboundStep, Error>)
    requires
        old(connections).wf(),
        old(connections)@.inbound(token),
        old(connections)@.inbound_route(token).state is Closing,
    ensures
        final(connections).wf(),
        closing_terminal(
            old(connections)@,
            final(connections)@,
            old(actions)@,
            final(actions)@,
            token,
            result,
        ),
{
    let owed: bool = match connections.inbound_route(token) {
        Some(route) => match &route.state {
            InboundState::Closing {
                peer: InboundPeerState::PreAccept { reject: Some(_) },
                ..
            } => true,
            _ => false,
        },
        None => false,
    };
    if !owed {
        return Ok(InboundStep::Done(EventDisposition::Rejected(CmEventReject::Duplicate)));
    }
    match connections.take_inbound_state(token) {
        InboundState::Closing { connection, request, completion, selected, .. } => {
            let ghost taken = connections@;
            match connections.connection_mut(connection.token) {
                Some(state) => {
                    let event = state.mark_disconnected();
                    actions.push(Action::IoEvent { connection: connection.token, event });
                },
                None => {
                    return Err(
                        Error::invalid(
                            "closing inbound terminal event lost its registered connection owner",
                        ),
                    );
                },
            }
            let _ = connections.set_inbound_state(
                token,
                InboundState::Closing {
                    connection,
                    request,
                    completion,
                    selected,
                    peer: InboundPeerState::PreAccept { reject: None },
                },
            );
            proof {
                assert(connections@.slots.entries =~= old(connections)@.set_connection(
                    connection.token,
                    ConnectionState {
                        io_closed: true,
                        ..old(connections)@.connection(connection.token)
                    },
                ).set_inbound_state(
                    token,
                    InboundState::Closing {
                        connection,
                        request,
                        completion,
                        selected,
                        peer: InboundPeerState::PreAccept { reject: None },
                    },
                ).slots.entries);
            }
            Ok(InboundStep::Teardown { connection: connection.token })
        },
        _ => unreached(),
    }
}

/// What a terminal event of an inbound route that is not closing reports and leaves.
pub open spec fn open_terminal(
    before: RegistryView,
    after: RegistryView,
    requests: SlotsView<AcceptRequest>,
    requests_after: SlotsView<AcceptRequest>,
    actions: Seq<Action>,
    actions_after: Seq<Action>,
    token: CmRouteToken,
    error: Error,
    record_failure: bool,
    result: Result<InboundStep, Error>,
) -> bool {
    let state = before.inbound_route(token).state;
    let connection = state.referenced()->0;
    if state is AwaitEstablished && !before.connected(connection) {
        &&& result matches Err(lost) && lost.is_invalid_config(
            "registered inbound connection disappeared during CM transition"@,
        )
        &&& after == inbound_taken(before, token)
        &&& requests_after == requests
        &&& actions_after == actions
    } else {
        terminal_closed(
            inbound_taken(before, token),
            after,
            requests,
            requests_after,
            actions,
            actions_after,
            token,
            connection,
            waiting_accept(state),
            error,
            record_failure,
            result,
        )
    }
}

/// Whether an inbound route has a connection that is not closing.
pub open spec fn inbound_open(state: InboundState) -> bool {
    state is AwaitEstablished || state is EstablishedAwaitingDelivery || state is Established
}

fn end_open_route(
    connections: &mut ConnectionRegistry,
    requests: &mut SlotRegistry<AcceptRequest>,
    token: CmRouteToken,
    error: Error,
    record_failure: bool,
    actions: &mut ReactorActions,
) -> (result: Result<InboundStep, Error>)
    requires
        old(connections).wf(),
        old(requests).wf(),
        old(connections)@.inbound(token),
        inbound_open(old(connections)@.inbound_route(token).state),
    ensures
        final(connections).wf(),
        final(requests).wf(),
        final(requests).spent() == old(requests).spent(),
        open_terminal(
            old(connections)@,
            final(connections)@,
            old(requests)@,
            final(requests)@,
            old(actions)@,
            final(actions)@,
            token,
            error,
            record_failure,
            result,
        ),
{
    let (connection, request): (ConnectionToken, Option<RequestToken>) =
        match connections.take_inbound_state(token) {
        InboundState::AwaitEstablished { request, connection } => {
            if connections.connection(connection).is_none() {
                return Err(
                    Error::invalid(
                        "registered inbound connection disappeared during CM transition",
                    ),
                );
            }
            (connection, Some(request))
        },
        InboundState::EstablishedAwaitingDelivery { request, connection } => (
            connection.token,
            Some(request),
        ),
        InboundState::Established { connection } => (connection.token, None),
        _ => unreached(),
    };
    close_after_inbound_terminal(
        connections,
        requests,
        token,
        connection,
        request,
        error,
        record_failure,
        actions,
    )
}

/// What a disconnect of an inbound route reports and leaves.
pub open spec fn inbound_disconnected(
    before: RegistryView,
    after: RegistryView,
    requests: SlotsView<AcceptRequest>,
    requests_after: SlotsView<AcceptRequest>,
    actions: Seq<Action>,
    actions_after: Seq<Action>,
    token: CmRouteToken,
    aborted: Error,
    result: Result<InboundStep, Error>,
) -> bool {
    let state = before.inbound_route(token).state;
    if before.inbound(token) && inbound_open(state) {
        open_terminal(
            before,
            after,
            requests,
            requests_after,
            actions,
            actions_after,
            token,
            aborted,
            false,
            result,
        )
    } else {
        &&& requests_after == requests
        &&& if before.inbound(token) && state is Closing {
            closing_terminal(before, after, actions, actions_after, token, result)
        } else {
            &&& result == Ok::<InboundStep, Error>(
                InboundStep::Done(EventDisposition::Rejected(CmEventReject::Duplicate)),
            )
            &&& after == before
            &&& actions_after == actions
        }
    }
}

/// Takes in that the peer of an inbound route disconnected.
pub fn handle_disconnected(
    connections: &mut ConnectionRegistry,
    requests: &mut SlotRegistry<AcceptRequest>,
    token: CmRouteToken,
    actions: &mut ReactorActions,
) -> (result: Result<InboundStep, Error>)
    requires
        old(connections).wf(),
        old(requests).wf(),
    ensures
        final(connections).wf(),
        final(requests).wf(),
        final(requests).spent() == old(requests).spent(),
        exists|aborted: Error|
            aborted.is_verbs(
                IoErrorKind::ConnectionAborted,
                "inbound connection disconnected before accept delivery"@,
            ) && #[trigger] inbound_disconnected(
                old(connections)@,
                final(connections)@,
                old(requests)@,
                final(requests)@,
                old(actions)@,
                final(actions)@,
                token,
                aborted,
                result,
            ),
{
    let aborted = Error::Verbs(
        IoError::new(
            IoErrorKind::ConnectionAborted,
            owned("inbound connection disconnected before accept delivery"),
        ),
    );
    apply_disconnect(connections, requests, token, aborted, actions)
}

fn apply_disconnect(
    connections: &mut ConnectionRegistry,
    requests: &mut SlotRegistry<AcceptRequest>,
    token: CmRouteToken,
    aborted: Error,
    actions: &mut ReactorActions,
) -> (result: Result<InboundStep, Error>)
    requires
        old(connections).wf(),
        old(requests).wf(),
    ensures
        final(connections).wf(),
        final(requests).wf(),
        final(requests).spent() == old(requests).spent(),
        inbound_disconnected(
            old(connections)@,
            final(connections)@,
            old(requests)@,
            final(requests)@,
            old(actions)@,
            final(actions)@,
            token,
            aborted,
            result,
        ),
{
    match connections.inbound_route(token) {
        Some(route) => match &route.state {
            InboundState::AwaitEstablished { .. }
            | InboundState::EstablishedAwaitingDelivery { .. }
            | InboundState::Established { .. } => end_open_route(
                connections,
                requests,
                token,
                aborted,
                false,
                actions,
            ),
            InboundState::Closing { .. } => finish_closing_terminal(connections, token, actions),
            _ => Ok(InboundStep::Done(EventDisposition::Rejected(CmEventReject::Duplicate))),
        },
        None => Ok(InboundStep::Done(EventDisposition::Rejected(CmEventReject::Duplicate))),
    }
}

/// What the failure event of an inbound route reports and leaves.
pub open spec fn inbound_failed(
    before: RegistryView,
    after: RegistryView,
    requests: SlotsView<AcceptRequest>,
    requests_after: SlotsView<AcceptRequest>,
    actions: Seq<Action>,
    actions_after: Seq<Action>,
    token: CmRouteToken,
    failure: Error,
    result: Result<InboundStep, Error>,
) -> bool {
    let state = before.inbound_route(token).state;
    if before.inbound(token) && inbound_open(state) {
        open_terminal(
            before,
            after,
            requests,
            requests_after,
            actions,
            actions_after,
            token,
            failure,
            true,
            result,
        )
    } else {
        &&& requests_after == requests
        &&& if before.inbound(token) && state is Closing {
            closing_terminal(before, after, actions, actions_after, token, result)
        } else {
            &&& after == before
            &&& actions_after == actions
            &&& if before.inbound(token) && state is Transitioning {
                result matches Err(error) && error.is_invalid_config(
                    "inbound CM route was re-entered while transitioning"@,
                )
            } else {
                result == Ok::<InboundStep, Error>(
                    InboundStep::Done(
                        EventDisposition::Rejected(
                            if before.inbound(token) && state is PendingSelection {
                                CmEventReject::Unexpected
                            } else {
                                CmEventReject::Duplicate
                            },
                        ),
                    ),
                )
            }
        }
    }
}

fn apply_failure(
    connections: &mut ConnectionRegistry,
    requests: &mut SlotRegistry<AcceptRequest>,
    token: CmRouteToken,
    failure: Error,
    actions: &mut ReactorActions,
) -> (result: Result<InboundStep, Error>)
    requires
        old(connections).wf(),
        old(requests).wf(),
    ensures
        final(connections).wf(),
        final(requests).wf(),
        final(requests).spent() == old(requests).spent(),
        inbound_failed(
            old(connections)@,
            final(connections)@,
            old(requests)@,
            final(requests)@,
            old(actions)@,
            final(actions)@,
            token,
            failure,
            result,
        ),
{
    match connections.inbound_route(token) {
        Some(route) => match &route.state {
            InboundState::AwaitEstablished { .. }
            | InboundState::EstablishedAwaitingDelivery { .. }
            | InboundState::Established { .. } => end_open_route(
                connections,
                requests,
                token,
                failure,
                true,
                actions,
            ),
            InboundState::Closing { .. } => finish_closing_terminal(connections, token, actions),
            InboundState::Quarantined { .. } => Ok(
                InboundStep::Done(EventDisposition::Rejected(CmEventReject::Duplicate)),
            ),
            InboundState::PendingSelection { .. } => Ok(
                InboundStep::Done(EventDisposition::Rejected(CmEventReject::Unexpected)),
            ),
            InboundState::Transitioning => Err(
                Error::invalid("inbound CM route was re-entered while transitioning"),
            ),
        },
        None => Ok(InboundStep::Done(EventDisposition::Rejected(CmEventReject::Duplicate))),
    }
}

/// Takes in the failure event of an inbound route.
pub fn handle_failure(
    connections: &mut ConnectionRegistry,
    requests: &mut SlotRegistry<AcceptRequest>,
    token: CmRouteToken,
    snapshot: CmEventSnapshot,
    actions: &mut ReactorActions,
) -> (result: Result<InboundStep, Error>)
    requires
        old(connections).wf(),
        old(requests).wf(),
    ensures
        final(connections).wf(),
        final(requests).wf(),
        final(requests).spent() == old(requests).spent(),
        exists|failure: Error|
            failure.is_verbs(IoErrorKind::Other, snapshot.failure_text("inbound "@))
                && #[trigger] inbound_failed(
                old(connections)@,
                final(connections)@,
                old(requests)@,
                final(requests)@,
                old(actions)@,
                final(actions)@,
                token,
                failure,
                result,
            ),
{
    let failure = Error::Verbs(IoError::other(snapshot.failure_message("inbound ")));
    apply_failure(connections, requests, token, failure, actions)
}

/// Takes in an event of an inbound route.
///
/// A failure goes before anything else; any other event goes by its kind.
pub fn handle_event(
    cm: &mut CmState,
    connections: &mut ConnectionRegistry,
    requests: &mut SlotRegistry<AcceptRequest>,
    token: CmRouteToken,
    snapshot: CmEventSnapshot,
    shutting_down: bool,
    actions: &mut ReactorActions,
) -> (result: Result<InboundStep, Error>)
    requires
        old(cm).wf(),
        old(connections).wf(),
        old(requests).wf(),
    ensures
        final(cm).wf(),
        final(connections).wf(),
        final(requests).wf(),
        final(requests).spent() == old(requests).spent(),
        !(snapshot.event_type is Established) || snapshot.failed() ==> final(cm)@ == old(cm)@,
        snapshot.failed() ==> exists|failure: Error|
            failure.is_verbs(IoErrorKind::Other, snapshot.failure_text("inbound "@))
                && #[trigger] inbound_failed(
                old(connections)@,
                final(connections)@,
                old(requests)@,
                final(requests)@,
                old(actions)@,
                final(actions)@,
                token,
                failure,
                result,
            ),
        !snapshot.failed() && snapshot.event_type is Established ==> inbound_established(
            old(cm)@,
            final(cm)@,
            old(connections)@,
            final(connections)@,
            old(requests)@,
            final(requests)@,
            old(actions)@,
            final(actions)@,
            token,
            shutting_down,
            result,
        ),
        !snapshot.failed() && snapshot.event_type is Disconnected ==> exists|aborted: Error|
            aborted.is_verbs(
                IoErrorKind::ConnectionAborted,
                "inbound connection disconnected before accept delivery"@,
            ) && #[trigger] inbound_disconnected(
                old(connections)@,
                final(connections)@,
                old(requests)@,
                final(requests)@,
                old(actions)@,
                final(actions)@,
                token,
                aborted,
                result,
            ),
        !snapshot.failed() && !(snapshot.event_type is Established
            || snapshot.event_type is Disconnected) ==> {
            &&& final(requests)@ == old(requests)@
            &&& if snapshot.event_type is TimewaitExit && old(connections)@.inbound(token) && old(
                connections,
            )@.inbound_route(token).state is Closing {
                closing_terminal(
                    old(connections)@,
                    final(connections)@,
                    old(actions)@,
                    final(actions)@,
                    token,
                    result,
                )
            } else {
                &&& result == Ok::<InboundStep, Error>(
                    InboundStep::Done(
                        if snapshot.event_type is TimewaitExit {
                            EventDisposition::Handled
                        } else {
                            EventDisposition::Rejected(CmEventReject::Unexpected)
                        },
                    ),
                )
                &&& final(connections)@ == old(connections)@
                &&& final(actions)@ == old(actions)@
            }
        },
        final(actions)@.len() <= old(actions)@.len() + STEP_PUBLICATIONS,
{
    if snapshot.is_failure() {
        return handle_failure(connections, requests, token, snapshot, actions);
    }
    match snapshot.event_type {
        CmEventType::Established => handle_established(
            cm,
            connections,
            requests,
            token,
            shutting_down,
            actions,
        ),
        CmEventType::Disconnected => handle_disconnected(connections, requests, token, actions),
        CmEventType::TimewaitExit => {
            let closing: bool = match connections.inbound_route(token) {
                Some(route) => match &route.state {
                    InboundState::Closing { .. } => true,
                    _ => false,
                },
                None => false,
            };
            if closing {
                finish_closing_terminal(connections, token, actions)
            } else {
                Ok(InboundStep::Done(EventDisposition::Handled))
            }
        },
        _ => Ok(InboundStep::Done(EventDisposition::Rejected(CmEventReject::Unexpected))),
    }
}

} // verus!
