//! Retirement of connections and destruction of identifiers that no event can refer to.

use vstd::prelude::*;
use vstd::string::StringExecFns;

use crate::actions::{Action, IoTerminalEvent, ReactorActions, STEP_PUBLICATIONS};
use crate::cm::{
    contextual_cm_error, error_detail, CmState, InboundRetirementCompletion, PendingCmDestruction,
};
use crate::cm::{detail_text, is_contextual, CmView};
use crate::connection::{CmId, ConnectionState};
use crate::error::{Error, IoError, IoErrorKind};
use crate::listener::{
    accept_claimed, accept_completed, accept_failed, accept_woken, without_permit,
};
use crate::listener::{complete_accept, fail_undelivered_accept, ListenerEntry};
use crate::registry::{ConnectionEntry, ConnectionRegistry, Lifecycle, RegistryView};
use crate::requests::{accept_delivered, AcceptRequest};
use crate::routes::{
    ConnectionCmRoute, InboundPeerState, InboundRejectReason, InboundState, OutboundState,
};
use crate::slots::{SlotRegistry, SlotsView};
use crate::text::{append_decimal, owned};
use crate::text::decimal;
use crate::token::{ConnectionToken, ListenerToken};

verus! {

/// What came of retiring a connection's route.
#[derive(Debug)]
pub enum RouteRetirement {
    Complete {
        completion: Option<InboundRetirementCompletion>,
        reject: Option<InboundRejectReason>,
    },
    Retry,
}

/// Whether a connection can retire from this state of its outbound route.
pub open spec fn outbound_retirable(state: OutboundState) -> bool {
    state is EstablishedAwaitingDelivery || state is DisconnectedAwaitingDelivery
        || state is Disconnected || state is FailedAwaitingDelivery || state is Failed
        || state is Closing
}

/// What retiring the outbound route under `token` reports and leaves.
///
/// A route that is just changing its state is to be retried; one that does not
/// lead to the connection, or is not established, is an error.
pub open spec fn outbound_retirement(
    before: RegistryView,
    after: RegistryView,
    token: ConnectionToken,
    connection: ConnectionToken,
    result: Result<RouteRetirement, Error>,
) -> bool {
    let state = before.outbound_route(token).state;
    if before.outbound(token) && state.referenced() == Some(connection) && outbound_retirable(
        state,
    ) {
        &&& result == Ok::<RouteRetirement, Error>(
            RouteRetirement::Complete { completion: None, reject: None },
        )
        &&& after == ConnectionRegistry::route_released(
            before.set_outbound_state(token, OutboundState::Transitioning),
            token,
            true,
        )
    } else {
        &&& after == before
        &&& if !before.outbound(token) {
            result == Ok::<RouteRetirement, Error>(
                RouteRetirement::Complete { completion: None, reject: None },
            )
        } else if state.referenced() == Some(connection) {
            result matches Err(error) && error.is_invalid_config(
                "connection route was not established during retirement"@,
            )
        } else if state is Transitioning {
            result == Ok::<RouteRetirement, Error>(RouteRetirement::Retry)
        } else {
            result matches Err(error) && error.is_invalid_config(
                "connection route generation did not match retirement"@,
            )
        }
    }
}

/// Retires the outbound route of a connection.
pub fn retire_outbound_route_for_retirement(
    connections: &mut ConnectionRegistry,
    token: ConnectionToken,
    connection: ConnectionToken,
) -> (result: Result<RouteRetirement, Error>)
    requires
        old(connections).wf(),
    ensures
        final(connections).wf(),
        outbound_retirement(old(connections)@, final(connections)@, token, connection, result),
{
    let retirable: bool = match connections.outbound_route(token) {
        None => {
            return Ok(RouteRetirement::Complete { completion: None, reject: None });
        },
        Some(route) => {
            if !route.state.references_connection(connection) {
                return match &route.state {
                    OutboundState::Transitioning => Ok(RouteRetirement::Retry),
                    _ => Err(
                        Error::invalid("connection route generation did not match retirement"),
                    ),
                };
            }
            match &route.state {
                OutboundState::EstablishedAwaitingDelivery { .. }
                | OutboundState::DisconnectedAwaitingDelivery { .. }
                | OutboundState::Disconnected { .. }
                | OutboundState::FailedAwaitingDelivery { .. }
                | OutboundState::Failed { .. }
                | OutboundState::Closing { .. } => true,
                _ => false,
            }
        },
    };
    if !retirable {
        return Err(Error::invalid("connection route was not established during retirement"));
    }
    let _ = connections.take_outbound_state(token);
    let _ = connections.release_route(token, true);
    Ok(RouteRetirement::Complete { completion: None, reject: None })
}

/// The table after the selection on `route` at `listener` ended.
pub open spec fn selection_released(
    cm: CmView,
    requests: SlotsView<AcceptRequest>,
    listener: ListenerToken,
    route: u64,
) -> SlotsView<AcceptRequest> {
    if cm.listeners.has(listener) && ListenerEntry::selects_route(
        cm.listeners.entry(listener)@,
        route,
    ) {
        without_permit(requests, cm.listeners.entry(listener).selected->0.waiter())
    } else {
        requests
    }
}

/// The reject that a closing route still owes its peer.
pub open spec fn owed_reject(peer: InboundPeerState) -> Option<InboundRejectReason> {
    match peer {
        InboundPeerState::PreAccept { reject } => reject,
        InboundPeerState::Accepted => None,
    }
}

/// What retiring an inbound route in `state` reports, and what it does to the
/// connection manager, the accept requests and the publications.
pub open spec fn inbound_route_retired(
    state: InboundState,
    listener: ListenerToken,
    route: u64,
    result: RouteRetirement,
    cm: CmView,
    cm_after: CmView,
    requests: SlotsView<AcceptRequest>,
    requests_after: SlotsView<AcceptRequest>,
    actions: Seq<Action>,
    actions_after: Seq<Action>,
) -> bool {
    match state {
        InboundState::EstablishedAwaitingDelivery { request, .. } => {
            let failed = accept_failed(requests, request, Error::DriverShutdown);
            &&& actions_after == accept_claimed(requests, request, actions)
            &&& if accept_delivered(requests.entries, request) {
                &&& CmState::ends_selection(cm, cm_after, listener, route, failed.entries)
                &&& requests_after == selection_released(cm, failed, listener, route)
                &&& result == (RouteRetirement::Complete { completion: None, reject: None })
            } else {
                &&& cm_after == cm
                &&& requests_after == failed
                &&& result == (RouteRetirement::Complete {
                    completion: Some(
                        InboundRetirementCompletion {
                            listener,
                            route,
                            request: None,
                            result: None,
                            selected: true,
                        },
                    ),
                    reject: None,
                })
            }
        },
        InboundState::Established { .. } => {
            &&& cm_after == cm
            &&& requests_after == requests
            &&& actions_after == actions
            &&& result == (RouteRetirement::Complete { completion: None, reject: None })
        },
        InboundState::Closing { request, completion, selected, peer, .. } => {
            &&& cm_after == cm
            &&& requests_after == requests
            &&& actions_after == actions
            &&& result == (RouteRetirement::Complete {
                completion: Some(
                    InboundRetirementCompletion {
                        listener,
                        route,
                        request,
                        result: completion,
                        selected,
                    },
                ),
                reject: owed_reject(peer),
            })
        },
        _ => false,
    }
}

/// Whether a connection can retire from this state of its inbound route.
pub open spec fn inbound_retirable(state: InboundState) -> bool {
    state is EstablishedAwaitingDelivery || state is Established || state is Closing
}

/// What retiring the inbound route under `token` reports and leaves.
///
/// An accept whose connection was not delivered fails; what its listener is owed
/// comes back for after the retirement.
pub open spec fn inbound_retirement(
    cm: CmView,
    cm_after: CmView,
    before: RegistryView,
    after: RegistryView,
    requests: SlotsView<AcceptRequest>,
    requests_after: SlotsView<AcceptRequest>,
    actions: Seq<Action>,
    actions_after: Seq<Action>,
    token: ConnectionToken,
    connection: ConnectionToken,
    result: Result<RouteRetirement, Error>,
) -> bool {
    let route = before.inbound_route(token);
    if before.inbound(token) && route.state.referenced() == Some(connection) && inbound_retirable(
        route.state,
    ) {
        &&& result is Ok
        &&& inbound_route_retired(
            route.state,
            route.listener,
            token.encoded() as u64,
            result->Ok_0,
            cm,
            cm_after,
            requests,
            requests_after,
            actions,
            actions_after,
        )
        &&& after == ConnectionRegistry::route_released(
            before.set_inbound_state(token, InboundState::Transitioning),
            token,
            true,
        )
    } else {
        &&& cm_after == cm
        &&& after == before
        &&& requests_after == requests
        &&& actions_after == actions
        &&& if !before.inbound(token) {
            result == Ok::<RouteRetirement, Error>(
                RouteRetirement::Complete { completion: None, reject: None },
            )
        } else if route.state.referenced() == Some(connection) {
            result matches Err(error) && error.is_invalid_config(
                "inbound connection route was not established during retirement"@,
            )
        } else if route.state is Transitioning {
            result == Ok::<RouteRetirement, Error>(RouteRetirement::Retry)
        } else {
            result matches Err(error) && error.is_invalid_config(
                "inbound connection route generation did not match retirement"@,
            )
        }
    }
}

/// Retires the inbound route of a connection.
pub fn retire_inbound_route_for_retirement(
    cm: &mut CmState,
    connections: &mut ConnectionRegistry,
    requests: &mut SlotRegistry<AcceptRequest>,
    token: ConnectionToken,
    connection: ConnectionToken,
    actions: &mut ReactorActions,
) -> (result: Result<RouteRetirement, Error>)
    requires
        old(cm).wf(),
        old(connections).wf(),
        old(requests).wf(),
    ensures
        final(cm).wf(),
        final(connections).wf(),
        final(requests).wf(),
        final(requests).spent() == old(requests).spent(),
        inbound_retirement(
            old(cm)@,
            final(cm)@,
            old(connections)@,
            final(connections)@,
            old(requests)@,
            final(requests)@,
            old(actions)@,
            final(actions)@,
            token,
            connection,
            result,
        ),
{
    let (listener, retirable): (ListenerToken, bool) = match connections.inbound_route(token) {
        None => {
            return Ok(RouteRetirement::Complete { completion: None, reject: None });
        },
        Some(route) => {
            if !route.state.references_connection(connection) {
                return match &route.state {
                    InboundState::Transitioning => Ok(RouteRetirement::Retry),
                    _ => Err(
                        Error::invalid(
                            "inbound connection route generation did not match retirement",
                        ),
                    ),
                };
            }
            (
                route.listener,
                match &route.state {
                    InboundState::EstablishedAwaitingDelivery { .. }
                    | InboundState::Established { .. }
                    | InboundState::Closing { .. } => true,
                    _ => false,
                },
            )
        },
    };
    if !retirable {
        return Err(
            Error::invalid("inbound connection route was not established during retirement"),
        );
    }
    let route: u64 = token.encode();
    let state = connections.take_inbound_state(token);
    let _ = connections.release_route(token, true);
    match state {
        InboundState::EstablishedAwaitingDelivery { request, .. } => {
            let delivered: bool = fail_undelivered_accept(
                requests,
                request,
                Error::DriverShutdown,
                actions,
            );
            if delivered {
                let _ = cm.finish_selected_route(listener, route, requests);
                Ok(RouteRetirement::Complete { completion: None, reject: None })
            } else {
                Ok(
                    RouteRetirement::Complete {
                        completion: Some(
                            InboundRetirementCompletion {
                                listener,
                                route,
                                request: None,
                                result: None,
                                selected: true,
                            },
                        ),
                        reject: None,
                    },
                )
            }
        },
        InboundState::Closing { request, completion, selected, peer, .. } => {
            let reject = match peer {
                InboundPeerState::PreAccept { reject } => reject,
                InboundPeerState::Accepted => None,
            };
            Ok(
                RouteRetirement::Complete {
                    completion: Some(
                        InboundRetirementCompletion {
                            listener,
                            route,
                            request,
                            result: completion,
                            selected,
                        },
                    ),
                    reject,
                },
            )
        },
        _ => Ok(RouteRetirement::Complete { completion: None, reject: None }),
    }
}

/// Whether the listener of a completion was told that its selection ended.
pub open spec fn completion_selection(
    completion: InboundRetirementCompletion,
    cm: CmView,
    cm_after: CmView,
    requests: SlotsView<AcceptRequest>,
    requests_after: SlotsView<AcceptRequest>,
) -> bool {
    if completion.selected {
        &&& CmState::ends_selection(
            cm,
            cm_after,
            completion.listener,
            completion.route,
            requests.entries,
        )
        &&& requests_after == selection_released(
            cm,
            requests,
            completion.listener,
            completion.route,
        )
    } else {
        cm_after == cm && requests_after == requests
    }
}

/// Whether what an accept was owed was given to it after a clean retirement.
pub open spec fn inbound_finished(
    completion: Option<InboundRetirementCompletion>,
    cm: CmView,
    cm_after: CmView,
    requests: SlotsView<AcceptRequest>,
    requests_after: SlotsView<AcceptRequest>,
    actions: Seq<Action>,
    actions_after: Seq<Action>,
) -> bool {
    match completion {
        None => cm_after == cm && requests_after == requests && actions_after == actions,
        Some(owed) => match (owed.request, owed.result) {
            (Some(request), Some(error)) => {
                &&& actions_after == accept_woken(requests, request, actions)
                &&& completion_selection(
                    owed,
                    cm,
                    cm_after,
                    accept_completed(requests, request, Err(error)),
                    requests_after,
                )
            },
            _ => {
                &&& actions_after == actions
                &&& completion_selection(owed, cm, cm_after, requests, requests_after)
            },
        },
    }
}

/// Gives an accept what it is owed after a clean retirement.
pub fn finish_inbound_retirement(
    cm: &mut CmState,
    requests: &mut SlotRegistry<AcceptRequest>,
    completion: Option<InboundRetirementCompletion>,
    actions: &mut ReactorActions,
)
    requires
        old(cm).wf(),
        old(requests).wf(),
    ensures
        final(cm).wf(),
        final(requests).wf(),
        final(requests).spent() == old(requests).spent(),
        inbound_finished(
            completion,
            old(cm)@,
            final(cm)@,
            old(requests)@,
            final(requests)@,
            old(actions)@,
            final(actions)@,
        ),
{
    if let Some(owed) = completion {
        if let Some(request) = owed.request {
            if let Some(error) = owed.result {
                complete_accept(requests, request, Err(error), actions);
            }
        }
        if owed.selected {
            let _ = cm.finish_selected_route(owed.listener, owed.route, requests);
        }
    }
}

/// Whether an accept was failed because the retirement of its connection failed.
pub open spec fn inbound_failed(
    completion: Option<InboundRetirementCompletion>,
    error: Error,
    cm: CmView,
    cm_after: CmView,
    requests: SlotsView<AcceptRequest>,
    requests_after: SlotsView<AcceptRequest>,
    actions: Seq<Action>,
    actions_after: Seq<Action>,
) -> bool {
    match completion {
        None => cm_after == cm && requests_after == requests && actions_after == actions,
        Some(owed) => match owed.request {
            Some(request) => {
                &&& actions_after == accept_claimed(requests, request, actions)
                &&& completion_selection(
                    owed,
                    cm,
                    cm_after,
                    accept_failed(requests, request, error),
                    requests_after,
                )
            },
            None => {
                &&& actions_after == actions
                &&& completion_selection(owed, cm, cm_after, requests, requests_after)
            },
        },
    }
}

/// Fails an accept whose connection could not be retired.
pub fn fail_inbound_retirement(
    cm: &mut CmState,
    requests: &mut SlotRegistry<AcceptRequest>,
    completion: Option<InboundRetirementCompletion>,
    error: Error,
    actions: &mut ReactorActions,
)
    requires
        old(cm).wf(),
        old(requests).wf(),
    ensures
        final(cm).wf(),
        final(requests).wf(),
        final(requests).spent() == old(requests).spent(),
        inbound_failed(
            completion,
            error,
            old(cm)@,
            final(cm)@,
            old(requests)@,
            final(requests)@,
            old(actions)@,
            final(actions)@,
        ),
{
    if let Some(owed) = completion {
        if let Some(request) = owed.request {
            let _ = fail_undelivered_accept(requests, request, error, actions);
        }
        if owed.selected {
            let _ = cm.finish_selected_route(owed.listener, owed.route, requests);
        }
    }
}

/// Takes a connection out whose retirement has started.
pub fn release_connection_retirement(
    connections: &mut ConnectionRegistry,
    token: ConnectionToken,
) -> (result: Result<ConnectionState, Error>)
    requires
        old(connections).wf(),
    ensures
        final(connections).wf(),
        if retirement_releasable(old(connections)@, token) {
            &&& result == Ok::<ConnectionState, Error>(old(connections)@.connection(token))
            &&& final(connections)@ == retirement_released(old(connections)@, token)
        } else {
            &&& result matches Err(error) && error.is_invalid_config(
                "connection registry retirement lost its entry"@,
            )
            &&& final(connections)@ == old(connections)@
        },
{
    let qp_num: u32 = match connections.connection(token) {
        Some(connection) => connection.qp_num,
        None => {
            return Err(Error::invalid("connection registry retirement lost its entry"));
        },
    };
    match connections.release(token, qp_num) {
        Some(connection) => Ok(connection),
        None => Err(Error::invalid("connection registry retirement lost its entry")),
    }
}

/// Whether a started retirement can take its connection out.
pub open spec fn retirement_releasable(view: RegistryView, token: ConnectionToken) -> bool {
    &&& view.connected(token)
    &&& view.qp_index.contains_key(view.connection(token).qp_num)
    &&& view.qp_index[view.connection(token).qp_num] == token
    &&& view.entry(token).is_live(Lifecycle::Retiring { started: true })
}

/// The registry after a started retirement took its connection out.
pub open spec fn retirement_released(view: RegistryView, token: ConnectionToken) -> RegistryView {
    RegistryView {
        qp_index: view.qp_index.remove(view.connection(token).qp_num),
        ..ConnectionRegistry::without(view, token, true)
    }
}

/// The publications of a finished retirement.
pub open spec fn retirement_actions(connection: ConnectionState, actions: Seq<Action>) -> Seq<
    Action,
> {
    actions.push(Action::WakeClose { connection: connection.token }).push(
        Action::IoEvent { connection: connection.token, event: IoTerminalEvent::Closed },
    )
}

fn finish_retirement(connection: ConnectionState, actions: &mut ReactorActions) -> (retired:
    ConnectionState)
    ensures
        retired == connection.retired(),
        final(actions)@ == retirement_actions(connection, old(actions)@),
{
    let mut connection = connection;
    let event = connection.finish_retirement_into(actions);
    actions.push(Action::IoEvent { connection: connection.token, event });
    connection
}

/// Whether a connection keeps its bundle because its destruction failed, and its
/// accept was told so.
pub open spec fn retirement_quarantined(
    token: ConnectionToken,
    completion: Option<InboundRetirementCompletion>,
    error: Error,
    cm: CmView,
    cm_after: CmView,
    connections: RegistryView,
    connections_after: RegistryView,
    requests: SlotsView<AcceptRequest>,
    requests_after: SlotsView<AcceptRequest>,
    actions: Seq<Action>,
    actions_after: Seq<Action>,
) -> bool {
    &&& ConnectionRegistry::quarantine_published(connections, connections_after, token, error)
    &&& exists|failure: Error|
        failure.is_verbs(IoErrorKind::Other, detail_text(error)) && #[trigger] inbound_failed(
            completion,
            failure,
            cm,
            cm_after,
            requests,
            requests_after,
            ConnectionRegistry::quarantine_actions(
                connections,
                connections_after,
                token,
                actions,
            ),
            actions_after,
        )
}

/// Keeps the bundle of a connection whose destruction failed.
pub fn quarantine_connection_retirement(
    cm: &mut CmState,
    connections: &mut ConnectionRegistry,
    requests: &mut SlotRegistry<AcceptRequest>,
    token: ConnectionToken,
    completion: Option<InboundRetirementCompletion>,
    error: Error,
    actions: &mut ReactorActions,
) -> (result: Result<(), Error>)
    requires
        old(cm).wf(),
        old(connections).wf(),
        old(requests).wf(),
    ensures
        final(cm).wf(),
        final(connections).wf(),
        final(requests).wf(),
        final(requests).spent() == old(requests).spent(),
        if ConnectionRegistry::bundle_open(old(connections)@, token) {
            &&& result is Ok
            &&& retirement_quarantined(
                token,
                completion,
                error,
                old(cm)@,
                final(cm)@,
                old(connections)@,
                final(connections)@,
                old(requests)@,
                final(requests)@,
                old(actions)@,
                final(actions)@,
            )
        } else {
            &&& result matches Err(lost) && lost.is_invalid_config(
                "connection destruction failure lost its retiring ownership bundle"@,
            )
            &&& final(cm)@ == old(cm)@
            &&& final(connections)@ == old(connections)@
            &&& final(requests)@ == old(requests)@
            &&& final(actions)@ == old(actions)@
        },
{
    let open: bool = match connections.get(token) {
        Some(entry) => match entry.quarantine {
            Some(bundle) => !bundle,
            None => entry.lifecycle != Lifecycle::Retired,
        },
        None => false,
    };
    if !open {
        return Err(
            Error::invalid("connection destruction failure lost its retiring ownership bundle"),
        );
    }
    let _ = connections.quarantine_and_publish(token, &error, actions);
    let failure = Error::Verbs(IoError::other(error_detail(&error)));
    fail_inbound_retirement(cm, requests, completion, failure, actions);
    Ok(())
}

/// What a retirement does next.
pub enum RetireStep {
    /// Nothing more; the connection that retired, if it did.
    Finished(Option<ConnectionState>),
    /// Destroy the connection's queue pair.
    DestroyQp,
    /// Give up the connection's resources.
    DestroyResources {
        completion: Option<InboundRetirementCompletion>,
        reject: Option<InboundRejectReason>,
    },
    /// Turn the peer away on this identifier, which is destroyed afterwards.
    RejectPeer { cm_id: CmId, completion: Option<InboundRetirementCompletion> },
}

/// Begins the retirement of a connection.
///
/// Nothing happens while operations are accepted. Before the queue pair is in the
/// error state the connection is queued again.
pub fn retire_registered_connection_into(
    connections: &mut ConnectionRegistry,
    token: ConnectionToken,
) -> (step: RetireStep)
    requires
        old(connections).wf(),
    ensures
        final(connections).wf(),
        ({
            let before = old(connections)@;
            if !before.connected(token) || before.connection(token).io_ledger.accepted@.len() != 0 {
                step == RetireStep::Finished(None) && final(connections)@ == before
            } else if !before.connection(token).error_transition_complete {
                &&& step == RetireStep::Finished(None)
                &&& final(connections)@ == (RegistryView {
                    retirements: before.retirements.push(token),
                    ..before
                })
            } else if !before.entry(token).is_live(Lifecycle::Retiring { started: false }) {
                step == RetireStep::Finished(None) && final(connections)@ == before
            } else {
                &&& step == RetireStep::DestroyQp
                &&& final(connections)@ == before.set(
                    token,
                    ConnectionEntry {
                        lifecycle: Lifecycle::Retiring { started: true },
                        ..before.entry(token)
                    },
                )
            }
        }),
{
    let complete: bool = match connections.connection(token) {
        None => {
            return RetireStep::Finished(None);
        },
        Some(connection) => {
            if connection.io_ledger.accepted_count() != 0 {
                return RetireStep::Finished(None);
            }
            connection.error_transition_complete
        },
    };
    if !complete {
        connections.enqueue_retirement(token);
        return RetireStep::Finished(None);
    }
    if connections.begin_retirement(token) {
        RetireStep::DestroyQp
    } else {
        RetireStep::Finished(None)
    }
}

/// Whether a bundle was quarantined because its queue pair could not be destroyed.
pub open spec fn qp_quarantined(
    before: RegistryView,
    after: RegistryView,
    token: ConnectionToken,
    cause: Result<bool, Error>,
) -> bool {
    match cause {
        Err(error) => ConnectionRegistry::quarantine_published(before, after, token, error),
        Ok(_) => exists|error: Error|
            error.is_invalid_config(
                "QP ownership disappeared before its destruction boundary was recorded"@,
            ) && #[trigger] ConnectionRegistry::quarantine_published(before, after, token, error),
    }
}

/// What retiring the route of a connection reports and leaves.
pub open spec fn route_retirement(
    cm: CmView,
    cm_after: CmView,
    before: RegistryView,
    after: RegistryView,
    requests: SlotsView<AcceptRequest>,
    requests_after: SlotsView<AcceptRequest>,
    actions: Seq<Action>,
    actions_after: Seq<Action>,
    token: ConnectionToken,
    result: Result<RouteRetirement, Error>,
) -> bool {
    if before.inbound(token) {
        inbound_retirement(
            cm,
            cm_after,
            before,
            after,
            requests,
            requests_after,
            actions,
            actions_after,
            token,
            token,
            result,
        )
    } else {
        &&& cm_after == cm
        &&& requests_after == requests
        &&& actions_after == actions
        &&& outbound_retirement(before, after, token, token, result)
    }
}

/// Retires the route of a connection, if it has one.
pub fn retire_route(
    cm: &mut CmState,
    connections: &mut ConnectionRegistry,
    requests: &mut SlotRegistry<AcceptRequest>,
    token: ConnectionToken,
    actions: &mut ReactorActions,
) -> (result: Result<RouteRetirement, Error>)
    requires
        old(cm).wf(),
        old(connections).wf(),
        old(requests).wf(),
    ensures
        final(cm).wf(),
        final(connections).wf(),
        final(requests).wf(),
        final(requests).spent() == old(requests).spent(),
        route_retirement(
            old(cm)@,
            final(cm)@,
            old(connections)@,
            final(connections)@,
            old(requests)@,
            final(requests)@,
            old(actions)@,
            final(actions)@,
            token,
            result,
        ),
{
    match connections.connection_route(token) {
        Some(ConnectionCmRoute::Outbound(_)) => retire_outbound_route_for_retirement(
            connections,
            token,
            token,
        ),
        Some(ConnectionCmRoute::Inbound(_)) => retire_inbound_route_for_retirement(
            cm,
            connections,
            requests,
            token,
            token,
            actions,
        ),
        None => Ok(RouteRetirement::Complete { completion: None, reject: None }),
    }
}

/// The registry after a retirement that has to wait was queued again.
pub open spec fn retirement_retried(view: RegistryView, token: ConnectionToken) -> RegistryView {
    if view.has(token) && view.entry(token).quarantine is None && view.entry(
        token,
    ).lifecycle is Retiring {
        RegistryView {
            retirements: view.retirements.push(token),
            ..view.set(
                token,
                ConnectionEntry {
                    lifecycle: Lifecycle::Retiring { started: false },
                    ..view.entry(token)
                },
            )
        }
    } else {
        view
    }
}

/// Goes on with a retirement once the provider answered the destruction of the
/// queue pair with `reply`.
///
/// A bundle whose queue pair stays is quarantined with its route. Only after the
/// queue pair is gone does the route retire.
pub fn retire_after_qp_destroy(
    cm: &mut CmState,
    connections: &mut ConnectionRegistry,
    requests: &mut SlotRegistry<AcceptRequest>,
    token: ConnectionToken,
    reply: Result<bool, Error>,
    actions: &mut ReactorActions,
) -> (result: Result<RetireStep, Error>)
    requires
        old(cm).wf(),
        old(connections).wf(),
        old(requests).wf(),
        old(connections)@.connected(token),
    ensures
        final(cm).wf(),
        final(connections).wf(),
        final(requests).wf(),
        final(requests).spent() == old(requests).spent(),
        ({
            let connection = old(connections)@.connection(token);
            let after_qp = old(connections)@.set_connection(
                token,
                connection.after_qp_destroy(reply),
            );
            if !connection.after_qp_destroy(reply).qp_destroyed {
                &&& result == Ok::<RetireStep, Error>(RetireStep::Finished(None))
                &&& qp_quarantined(
                    after_qp,
                    final(connections)@,
                    token,
                    connection.poster.destroyed(reply),
                )
                &&& final(actions)@ == ConnectionRegistry::quarantine_actions(
                    after_qp,
                    final(connections)@,
                    token,
                    old(actions)@,
                )
                &&& final(cm)@ == old(cm)@
                &&& final(requests)@ == old(requests)@
            } else {
                match result {
                    Ok(RetireStep::DestroyResources { completion, reject }) => route_retirement(
                        old(cm)@,
                        final(cm)@,
                        after_qp,
                        final(connections)@,
                        old(requests)@,
                        final(requests)@,
                        old(actions)@,
                        final(actions)@,
                        token,
                        Ok(RouteRetirement::Complete { completion, reject }),
                    ),
                    Ok(RetireStep::Finished(None)) => {
                        &&& route_retirement(
                            old(cm)@,
                            final(cm)@,
                            after_qp,
                            after_qp,
                            old(requests)@,
                            final(requests)@,
                            old(actions)@,
                            final(actions)@,
                            token,
                            Ok(RouteRetirement::Retry),
                        )
                        &&& final(connections)@ == retirement_retried(after_qp, token)
                    },
                    Ok(_) => false,
                    Err(error) => route_retirement(
                        old(cm)@,
                        final(cm)@,
                        after_qp,
                        final(connections)@,
                        old(requests)@,
                        final(requests)@,
                        old(actions)@,
                        final(actions)@,
                        token,
                        Err(error),
                    ),
                }
            }
        }),
        final(actions)@.len() <= old(actions)@.len() + STEP_PUBLICATIONS,
{
    if let Err(error) = connections.ensure_qp_destroyed(token, reply) {
        let _ = connections.quarantine_and_publish(token, &error, actions);
        return Ok(RetireStep::Finished(None));
    }
    match retire_route(cm, connections, requests, token, actions) {
        Ok(RouteRetirement::Complete { completion, reject }) => Ok(
            RetireStep::DestroyResources { completion, reject },
        ),
        Ok(RouteRetirement::Retry) => {
            connections.retry_retirement(token);
            Ok(RetireStep::Finished(None))
        },
        Err(error) => Err(error),
    }
}

/// Gives up the resources of a connection whose route has retired.
///
/// The provider answers a queue pair destruction that is still needed with
/// `reply`. An identifier of the connection manager is destroyed only after its
/// events were drained; a connection without one retires at once.
pub fn retire_resources(
    cm: &mut CmState,
    connections: &mut ConnectionRegistry,
    requests: &mut SlotRegistry<AcceptRequest>,
    token: ConnectionToken,
    completion: Option<InboundRetirementCompletion>,
    reject: Option<InboundRejectReason>,
    reply: Result<bool, Error>,
    actions: &mut ReactorActions,
) -> (result: Result<RetireStep, Error>)
    requires
        old(cm).wf(),
        old(connections).wf(),
        old(requests).wf(),
        old(connections)@.connected(token),
    ensures
        final(cm).wf(),
        final(connections).wf(),
        final(requests).wf(),
        final(requests).spent() == old(requests).spent(),
        ({
            let before = old(connections)@;
            let connection = before.connection(token);
            let outstanding = connection.io_ledger.accepted@.len();
            let given_up = before.set_connection(token, connection.after_resource_destroy(reply));
            if outstanding != 0 {
                &&& result == Ok::<RetireStep, Error>(RetireStep::Finished(None))
                &&& ConnectionRegistry::quarantine_published(
                    before,
                    final(connections)@,
                    token,
                    Error::EngineWedged {
                        retained_bundles: 1,
                        outstanding_operations: outstanding as usize,
                        cq_debt: outstanding as usize,
                    },
                )
                &&& inbound_finished(
                    completion,
                    old(cm)@,
                    final(cm)@,
                    old(requests)@,
                    final(requests)@,
                    ConnectionRegistry::quarantine_actions(
                        before,
                        final(connections)@,
                        token,
                        old(actions)@,
                    ),
                    final(actions)@,
                )
            } else if !connection.qp_destroyed && connection.poster.destroyed(reply) != Ok::<
                bool,
                Error,
            >(true) {
                &&& result == Ok::<RetireStep, Error>(RetireStep::Finished(None))
                &&& resources_quarantined(
                    given_up,
                    final(connections)@,
                    token,
                    connection.poster.destroyed(reply),
                )
                &&& inbound_finished(
                    completion,
                    old(cm)@,
                    final(cm)@,
                    old(requests)@,
                    final(requests)@,
                    ConnectionRegistry::quarantine_actions(
                        given_up,
                        final(connections)@,
                        token,
                        old(actions)@,
                    ),
                    final(actions)@,
                )
            } else if connection.poster.cm_owner() is Some {
                let cm_id = connection.poster.cm_owner()->0;
                &&& final(connections)@ == given_up
                &&& final(requests)@ == old(requests)@
                &&& final(actions)@ == old(actions)@
                &&& if reject is Some {
                    &&& result == Ok::<RetireStep, Error>(
                        RetireStep::RejectPeer { cm_id, completion },
                    )
                    &&& final(cm)@ == old(cm)@
                } else {
                    &&& result == Ok::<RetireStep, Error>(RetireStep::Finished(None))
                    &&& final(cm)@ == (CmView {
                        destructions: old(cm)@.destructions.push(
                            PendingCmDestruction::Connection { cm_id, token, completion },
                        ),
                        ..old(cm)@
                    })
                }
            } else if retirement_releasable(given_up, token) {
                &&& result == Ok::<RetireStep, Error>(
                    RetireStep::Finished(Some(given_up.connection(token).retired())),
                )
                &&& final(connections)@ == retirement_released(given_up, token)
                &&& inbound_finished(
                    completion,
                    old(cm)@,
                    final(cm)@,
                    old(requests)@,
                    final(requests)@,
                    retirement_actions(given_up.connection(token), old(actions)@),
                    final(actions)@,
                )
            } else {
                &&& result matches Err(error) && error.is_invalid_config(
                    "connection registry retirement lost its entry"@,
                )
                &&& final(connections)@ == given_up
                &&& final(cm)@ == old(cm)@
                &&& final(requests)@ == old(requests)@
                &&& final(actions)@ == old(actions)@
            }
        }),
        final(actions)@.len() <= old(actions)@.len() + STEP_PUBLICATIONS,
{
    let outstanding: usize = connections.accepted_count(token);
    match connections.destroy_connection_resources(token, outstanding, reply) {
        Err(error) => {
            let _ = connections.quarantine_and_publish(token, &error, actions);
            finish_inbound_retirement(cm, requests, completion, actions);
            Ok(RetireStep::Finished(None))
        },
        Ok(Some(cm_id)) => {
            if reject.is_some() {
                Ok(RetireStep::RejectPeer { cm_id, completion })
            } else {
                cm.defer_connection_cm_id(token, cm_id, completion);
                Ok(RetireStep::Finished(None))
            }
        },
        Ok(None) => match release_connection_retirement(connections, token) {
            Err(error) => Err(error),
            Ok(connection) => {
                let retired = finish_retirement(connection, actions);
                finish_inbound_retirement(cm, requests, completion, actions);
                Ok(RetireStep::Finished(Some(retired)))
            },
        },
    }
}

/// Whether a bundle was quarantined because its resources could not be given up.
pub open spec fn resources_quarantined(
    before: RegistryView,
    after: RegistryView,
    token: ConnectionToken,
    cause: Result<bool, Error>,
) -> bool {
    match cause {
        Err(error) => ConnectionRegistry::quarantine_published(before, after, token, error),
        Ok(_) => exists|error: Error|
            error.is_invalid_config(
                "connection resources lost QP ownership without a destruction boundary"@,
            ) && #[trigger] ConnectionRegistry::quarantine_published(before, after, token, error),
    }
}

/// Goes on with a retirement once the provider answered the reject of the peer.
pub fn retire_after_reject(
    cm: &mut CmState,
    token: ConnectionToken,
    cm_id: CmId,
    completion: Option<InboundRetirementCompletion>,
    reply: Result<(), Error>,
) -> (result: Result<(), Error>)
    requires
        old(cm).wf(),
    ensures
        final(cm).wf(),
        match reply {
            Ok(()) => {
                &&& result is Ok
                &&& final(cm)@ == (CmView {
                    destructions: old(cm)@.destructions.push(
                        PendingCmDestruction::Connection { cm_id, token, completion },
                    ),
                    ..old(cm)@
                })
            },
            Err(cause) => {
                &&& result matches Err(error) && is_contextual(
                    "reject selected inbound child after setup rollback"@,
                    cause,
                    error,
                )
                &&& final(cm)@ == old(cm)@
            },
        },
{
    match reply {
        Ok(()) => {
            cm.defer_connection_cm_id(token, cm_id, completion);
            Ok(())
        },
        Err(cause) => Err(
            contextual_cm_error("reject selected inbound child after setup rollback", cause),
        ),
    }
}

/// Takes the oldest deferred destruction, while the budget lasts.
pub fn next_destruction(cm: &mut CmState, processed: usize, budget: usize) -> (next: Option<
    PendingCmDestruction,
>)
    requires
        old(cm).wf(),
    ensures
        final(cm).wf(),
        if processed < budget && old(cm)@.destructions.len() > 0 {
            &&& next == Some(old(cm)@.destructions[0])
            &&& final(cm)@ == (CmView {
                destructions: old(cm)@.destructions.skip(1),
                ..old(cm)@
            })
        } else {
            next is None && final(cm)@ == old(cm)@
        },
{
    if processed >= budget {
        return None;
    }
    let next = cm.cm_destructions.pop_front();
    assert(next is Some ==> cm@.destructions =~= old(cm)@.destructions.skip(1));
    next
}

/// Decides on a destruction once the event channel was probed.
///
/// An event may still refer to the identifier, so the destruction waits behind the
/// others while the channel has one; a failed probe leaves it the oldest. Only an
/// empty channel lets the identifier go, and its context route goes before it.
pub fn destruction_probed(
    cm: &mut CmState,
    pending: PendingCmDestruction,
    probe: Result<bool, Error>,
) -> (result: Result<Option<PendingCmDestruction>, Error>)
    requires
        old(cm).wf(),
    ensures
        final(cm).wf(),
        match probe {
            Ok(true) => {
                &&& result == Ok::<Option<PendingCmDestruction>, Error>(None)
                &&& final(cm)@ == (CmView {
                    destructions: old(cm)@.destructions.push(pending),
                    ..old(cm)@
                })
            },
            Ok(false) => {
                &&& result == Ok::<Option<PendingCmDestruction>, Error>(Some(pending))
                &&& final(cm)@ == (CmView {
                    routes: old(cm)@.routes_without(pending.owned_id()),
                    ..old(cm)@
                })
            },
            Err(error) => {
                &&& result == Err::<Option<PendingCmDestruction>, Error>(error)
                &&& final(cm)@ == (CmView {
                    destructions: seq![pending] + old(cm)@.destructions,
                    ..old(cm)@
                })
            },
        },
{
    match probe {
        Ok(true) => {
            cm.cm_destructions.push_back(pending);
            Ok(None)
        },
        Ok(false) => {
            cm.remove_owned_context_route(pending.cm_id());
            Ok(Some(pending))
        },
        Err(error) => {
            cm.cm_destructions.push_front(pending);
            assert(cm@.destructions =~= seq![pending] + old(cm)@.destructions);
            Err(error)
        },
    }
}

/// What ended with the destruction of an identifier.
pub enum Destroyed {
    Route,
    Connection(Option<ConnectionState>),
    Listener(Option<ListenerEntry>),
}

/// The words that name a connection whose identifier is destroyed.
pub open spec fn connection_destruction_text(token: ConnectionToken) -> Seq<char> {
    "destroy connection CM ID for slot "@ + decimal(token.slot as nat) + " generation "@ + decimal(
        token.generation as nat,
    )
}

/// Finishes the retirement of a connection whose identifier was destroyed, or
/// keeps its bundle where that failed.
pub fn complete_connection_cm_destruction(
    cm: &mut CmState,
    connections: &mut ConnectionRegistry,
    requests: &mut SlotRegistry<AcceptRequest>,
    token: ConnectionToken,
    completion: Option<InboundRetirementCompletion>,
    reply: Result<(), Error>,
    actions: &mut ReactorActions,
) -> (result: Result<Option<ConnectionState>, Error>)
    requires
        old(cm).wf(),
        old(connections).wf(),
        old(requests).wf(),
    ensures
        final(cm).wf(),
        final(connections).wf(),
        final(requests).wf(),
        final(requests).spent() == old(requests).spent(),
        if reply is Ok && retirement_releasable(old(connections)@, token) {
            let connection = old(connections)@.connection(token);
            &&& result == Ok::<Option<ConnectionState>, Error>(Some(connection.retired()))
            &&& final(connections)@ == retirement_released(old(connections)@, token)
            &&& inbound_finished(
                completion,
                old(cm)@,
                final(cm)@,
                old(requests)@,
                final(requests)@,
                retirement_actions(connection, old(actions)@),
                final(actions)@,
            )
        } else if ConnectionRegistry::bundle_open(old(connections)@, token) {
            &&& result == Ok::<Option<ConnectionState>, Error>(None)
            &&& exists|error: Error|
                connection_destruction_failure(token, reply, error)
                    && #[trigger] retirement_quarantined(
                    token,
                    completion,
                    error,
                    old(cm)@,
                    final(cm)@,
                    old(connections)@,
                    final(connections)@,
                    old(requests)@,
                    final(requests)@,
                    old(actions)@,
                    final(actions)@,
                )
        } else {
            &&& result matches Err(lost) && lost.is_invalid_config(
                "connection destruction failure lost its retiring ownership bundle"@,
            )
            &&& final(cm)@ == old(cm)@
            &&& final(connections)@ == old(connections)@
            &&& final(requests)@ == old(requests)@
            &&& final(actions)@ == old(actions)@
        },
{
    let error: Error = match reply {
        Ok(()) => match release_connection_retirement(connections, token) {
            Ok(connection) => {
                let retired = finish_retirement(connection, actions);
                finish_inbound_retirement(cm, requests, completion, actions);
                return Ok(Some(retired));
            },
            Err(error) => error,
        },
        Err(cause) => {
            let mut context: String = owned("destroy connection CM ID for slot ");
            append_decimal(&mut context, token.slot as u64);
            context.append(" generation ");
            append_decimal(&mut context, token.generation as u64);
            contextual_cm_error(context.as_str(), cause)
        },
    };
    assert(connection_destruction_failure(token, reply, error));
    match quarantine_connection_retirement(
        cm,
        connections,
        requests,
        token,
        completion,
        error,
        actions,
    ) {
        Ok(()) => Ok(None),
        Err(lost) => Err(lost),
    }
}

/// Whether `error` says why a connection stays although its identifier was to go.
pub open spec fn connection_destruction_failure(
    token: ConnectionToken,
    reply: Result<(), Error>,
    error: Error,
) -> bool {
    match reply {
        Ok(()) => error.is_invalid_config("connection registry retirement lost its entry"@),
        Err(cause) => is_contextual(connection_destruction_text(token), cause, error),
    }
}

/// Publishes the end of a listener whose identifier was destroyed with `result`.
/// Only a destroyed identifier lets the listener go.
pub fn complete_listener_cm_destruction(
    cm: &mut CmState,
    listener: ListenerToken,
    result: Result<(), Error>,
    actions: &mut ReactorActions,
) -> (ended: Result<Option<ListenerEntry>, Error>)
    requires
        old(cm).wf(),
    ensures
        final(cm).wf(),
        final(actions)@ == if old(cm)@.listeners.has(listener) {
            old(actions)@.push(
                Action::WakeListener { listener: old(cm)@.listeners.entry(listener).token },
            )
        } else {
            old(actions)@
        },
        match result {
            Ok(()) => {
                &&& final(cm)@ == old(cm)@.without_listener(listener, true)
                &&& match ended {
                    Ok(Some(entry)) => old(cm)@.listeners.has(listener) && entry@
                        == ListenerEntry::admission_closed(
                        ListenerEntry::close_finished(old(cm)@.listeners.entry(listener)@, None),
                    ),
                    Ok(None) => !old(cm)@.listeners.has(listener),
                    Err(_) => false,
                }
            },
            Err(error) => {
                &&& ended == Err::<Option<ListenerEntry>, Error>(error)
                &&& if old(cm)@.listeners.has(listener) {
                    &&& final(cm)@ == (CmView { listeners: final(cm)@.listeners, ..old(cm)@ })
                    &&& old(cm)@.listeners.becomes(
                        final(cm)@.listeners,
                        listener,
                        ListenerEntry::close_finished(
                            old(cm)@.listeners.entry(listener)@,
                            Some(error),
                        ),
                    )
                } else {
                    final(cm)@ == old(cm)@
                }
            },
        },
{
    match result {
        Ok(()) => {
            if let Some(entry) = cm.listeners.get_mut(listener) {
                entry.finish_close_into(None, actions);
            }
            let ended = cm.release_listener(listener, true);
            proof {
                assert(cm@.listeners.slots.entries =~= old(cm)@.without_listener(
                    listener,
                    true,
                ).listeners.slots.entries);
            }
            Ok(ended)
        },
        Err(error) => {
            if let Some(entry) = cm.listeners.get_mut(listener) {
                entry.finish_close_into(Some(error.clone()), actions);
            }
            Err(error)
        },
    }
}

/// What destroying the identifier of `pending` with `reply` ends.
///
/// The order of the clauses is that of the kinds of identifiers: one of a route
/// only passes a failure on, one of a connection ends the connection's
/// retirement, one of a listener ends the listener.
pub fn complete_destruction(
    cm: &mut CmState,
    connections: &mut ConnectionRegistry,
    requests: &mut SlotRegistry<AcceptRequest>,
    pending: PendingCmDestruction,
    reply: Result<(), Error>,
    actions: &mut ReactorActions,
) -> (result: Result<Destroyed, Error>)
    requires
        old(cm).wf(),
        old(connections).wf(),
        old(requests).wf(),
    ensures
        final(cm).wf(),
        final(connections).wf(),
        final(requests).wf(),
        final(requests).spent() == old(requests).spent(),
        pending is Route ==> {
            &&& final(cm)@ == old(cm)@
            &&& final(connections)@ == old(connections)@
            &&& final(requests)@ == old(requests)@
            &&& final(actions)@ == old(actions)@
            &&& match reply {
                Ok(()) => result == Ok::<Destroyed, Error>(Destroyed::Route),
                Err(error) => result == Err::<Destroyed, Error>(error),
            }
        },
        pending matches PendingCmDestruction::Connection { token, completion, .. } ==> {
            if reply is Ok && retirement_releasable(old(connections)@, token) {
                let connection = old(connections)@.connection(token);
                &&& result == Ok::<Destroyed, Error>(
                    Destroyed::Connection(Some(connection.retired())),
                )
                &&& final(connections)@ == retirement_released(old(connections)@, token)
                &&& inbound_finished(
                    completion,
                    old(cm)@,
                    final(cm)@,
                    old(requests)@,
                    final(requests)@,
                    retirement_actions(connection, old(actions)@),
                    final(actions)@,
                )
            } else if ConnectionRegistry::bundle_open(old(connections)@, token) {
                &&& result == Ok::<Destroyed, Error>(Destroyed::Connection(None))
                &&& exists|error: Error|
                    connection_destruction_failure(token, reply, error)
                        && #[trigger] retirement_quarantined(
                        token,
                        completion,
                        error,
                        old(cm)@,
                        final(cm)@,
                        old(connections)@,
                        final(connections)@,
                        old(requests)@,
                        final(requests)@,
                        old(actions)@,
                        final(actions)@,
                    )
            } else {
                &&& result matches Err(lost) && lost.is_invalid_config(
                    "connection destruction failure lost its retiring ownership bundle"@,
                )
                &&& final(cm)@ == old(cm)@
                &&& final(connections)@ == old(connections)@
                &&& final(requests)@ == old(requests)@
                &&& final(actions)@ == old(actions)@
            }
        },
        pending matches PendingCmDestruction::Listener { listener, .. } ==> {
            &&& final(connections)@ == old(connections)@
            &&& final(requests)@ == old(requests)@
            &&& final(actions)@ == if old(cm)@.listeners.has(listener) {
                old(actions)@.push(
                    Action::WakeListener { listener: old(cm)@.listeners.entry(listener).token },
                )
            } else {
                old(actions)@
            }
            &&& listener_destroyed(old(cm)@, final(cm)@, listener, reply, result)
        },
        final(actions)@.len() <= old(actions)@.len() + STEP_PUBLICATIONS,
{
    match pending {
        PendingCmDestruction::Route(_) => match reply {
            Ok(()) => Ok(Destroyed::Route),
            Err(error) => Err(error),
        },
        PendingCmDestruction::Connection { token, completion, .. } => {
            match complete_connection_cm_destruction(
                cm,
                connections,
                requests,
                token,
                completion,
                reply,
                actions,
            ) {
                Ok(retired) => Ok(Destroyed::Connection(retired)),
                Err(error) => Err(error),
            }
        },
        PendingCmDestruction::Listener { listener, .. } => {
            let outcome: Result<(), Error> = match reply {
                Ok(()) => Ok(()),
                Err(cause) => {
                    let mut context: String = owned("destroy listener CM ID for ");
                    if let Some(entry) = cm.listeners.get(listener) {
                        let address: String = entry.display_addr();
                        context.append(address.as_str());
                    }
                    Err(contextual_cm_error(context.as_str(), cause))
                },
            };
            match complete_listener_cm_destruction(cm, listener, outcome, actions) {
                Ok(ended) => Ok(Destroyed::Listener(ended)),
                Err(error) => Err(error),
            }
        },
    }
}

/// The words that name a listener whose identifier is destroyed.
pub open spec fn listener_destruction_text(cm: CmView, listener: ListenerToken) -> Seq<char> {
    if cm.listeners.has(listener) {
        "destroy listener CM ID for "@ + cm.listeners.entry(listener).shown_addr()@
    } else {
        "destroy listener CM ID for "@
    }
}

/// What destroying a listener's identifier reports and leaves.
pub open spec fn listener_destroyed(
    cm: CmView,
    cm_after: CmView,
    listener: ListenerToken,
    reply: Result<(), Error>,
    result: Result<Destroyed, Error>,
) -> bool {
    match reply {
        Ok(()) => {
            &&& cm_after == cm.without_listener(listener, true)
            &&& match result {
                Ok(Destroyed::Listener(Some(entry))) => cm.listeners.has(listener) && entry@
                    == ListenerEntry::admission_closed(
                    ListenerEntry::close_finished(cm.listeners.entry(listener)@, None),
                ),
                Ok(Destroyed::Listener(None)) => !cm.listeners.has(listener),
                _ => false,
            }
        },
        Err(cause) => {
            &&& result is Err
            &&& is_contextual(listener_destruction_text(cm, listener), cause, result->Err_0)
            &&& if cm.listeners.has(listener) {
                &&& cm_after == (CmView { listeners: cm_after.listeners, ..cm })
                &&& cm.listeners.becomes(
                    cm_after.listeners,
                    listener,
                    ListenerEntry::close_finished(
                        cm.listeners.entry(listener)@,
                        Some(result->Err_0),
                    ),
                )
            } else {
                cm_after == cm
            }
        },
    }
}

/// An identifier is given up only after the queue pair it carried is gone.
pub proof fn the_queue_pair_goes_before_the_identifier(
    connection: ConnectionState,
    reply: Result<bool, Error>,
)
    requires
        connection.qp_destroyed || connection.poster.destroyed(reply) == Ok::<bool, Error>(true),
    ensures
        connection.after_resource_destroy(reply).qp_destroyed,
        connection.after_resource_destroy(reply).poster.cm_owner() is None,
{
}

/// A queue pair whose destruction failed keeps its identifier.
pub proof fn a_failed_destruction_keeps_the_identifier(connection: ConnectionState, error: Error)
    requires
        !connection.qp_destroyed,
        connection.poster.holds_qp(),
    ensures
        connection.after_resource_destroy(Err(error)).poster == connection.poster,
        connection.after_qp_destroy(Err(error)).poster == connection.poster,
{
}

/// The close of a retired connection is seen by its waiters: with the outcome that was
/// published first, or the quarantine that replaced it, and else successfully.
pub proof fn retired_connections_show_their_outcome(connection: ConnectionState)
    ensures
        connection.retired().close.visible() is Some,
        connection.close.outcome is None && connection.close_result is None
            ==> connection.retired().close.visible() == Some(
            crate::terminal::MemoizedTerminalResult::Success,
        ),
        connection.close.outcome is Some && (connection.close_result matches Some(kept)
            ==> !kept.quarantined()) ==> connection.retired().close.visible()
            == connection.close.outcome,
{
}

/// A connection leaves the registry once: after its retirement took it out, nothing of
/// it can be taken out again.
pub proof fn a_connection_retires_once(view: RegistryView, token: ConnectionToken)
    requires
        retirement_releasable(view, token),
    ensures
        !retirement_releasable(retirement_released(view, token), token),
{
}

} // verus!
