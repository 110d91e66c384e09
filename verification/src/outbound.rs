//! Outbound connects: their start, the events of their routes, and their cancellation.
//!
//! What only the provider can do comes back as a step; the caller performs it and
//! hands its result to the function that goes on.

use vstd::prelude::*;
use vstd::pervasive::unreached;

use crate::actions::{Action, IoTerminalEvent, ReactorActions, STEP_PUBLICATIONS};
use crate::admission::ConnectionReservation;
use crate::cm::{CmState, CmView, ContextRoute, PendingCmDestruction};
use crate::config::{QpCapabilities, RdmaConnectionConfig};
use crate::connection::{CmId, ConnectionPoster, ConnectionState, VerbsConnectionResources};
use crate::error::{Error, IoError, IoErrorKind};
use crate::event::{CmEventReject, CmEventSnapshot, CmEventType, EventDisposition};
use crate::install::{install_retained, setup_outcome};
use crate::install::{
    install_reserved_connection, retain_failed_install, run_setup_before_establish,
    FailedConnectionInstallResources, SetupSummary,
};
use crate::registry::{ConnectionEntry, ConnectionRegistry, Lifecycle, RegistryView};
use crate::requests::{ConnectionSetup, OutboundRequest};
use crate::routes::{EstablishedConnectionRoute, OutboundRoute, OutboundState};
use crate::slots::{SlotRegistry, SlotsView};
use crate::text::owned;
use crate::token::{CmRouteToken, ConnectionToken, RequestToken, SlotToken};

verus! {

/// Whether a connect request that the table still holds was cancelled.
pub open spec fn connect_cancelled(
    requests: SlotsView<OutboundRequest>,
    request: RequestToken,
) -> bool {
    requests.entries.contains_key(request) && requests.entries[request].completion.cancelled
}

pub fn is_connect_cancelled(requests: &SlotRegistry<OutboundRequest>, request: RequestToken) -> (cancelled:
    bool)
    requires
        requests.wf(),
    ensures
        cancelled == connect_cancelled(requests@, request),
{
    match requests.get(request) {
        Some(value) => value.completion.cancelled,
        None => false,
    }
}

/// The table after `result` came in for one connect request.
pub open spec fn connect_completed(
    requests: SlotsView<OutboundRequest>,
    request: RequestToken,
    result: Result<SlotToken, Error>,
) -> SlotsView<OutboundRequest> {
    if requests.entries.contains_key(request) {
        requests.set(request, requests.entries[request].completed(result))
    } else {
        requests
    }
}

/// The publications after a result came in for one connect request: its waiter is
/// woken for the first result.
pub open spec fn connect_woken(
    requests: SlotsView<OutboundRequest>,
    request: RequestToken,
    actions: Seq<Action>,
) -> Seq<Action> {
    if requests.entries.contains_key(request)
        && requests.entries[request].completion.result is Pending {
        actions.push(Action::WakeConnect { request })
    } else {
        actions
    }
}

/// Completes a connect request, if the table still holds it.
pub fn complete_connect(
    requests: &mut SlotRegistry<OutboundRequest>,
    request: RequestToken,
    result: Result<SlotToken, Error>,
    actions: &mut ReactorActions,
)
    requires
        old(requests).wf(),
    ensures
        final(requests).wf(),
        final(requests)@ == connect_completed(old(requests)@, request, result),
        final(requests).spent() == old(requests).spent(),
        final(actions)@ == connect_woken(old(requests)@, request, old(actions)@),
{
    if let Some(value) = requests.get_mut(request) {
        if value.completion.complete(result) {
            actions.push(Action::WakeConnect { request });
        }
    }
}

/// What an outbound setup owns before its queue pair exists.
pub struct SetupHold {
    pub token: CmRouteToken,
    pub cm_id: CmId,
    pub request: RequestToken,
    pub reservation: ConnectionReservation,
}

/// The state with an identifier queued for destruction.
pub open spec fn cm_deferred(cm: CmView, cm_id: CmId) -> CmView {
    CmView { destructions: cm.destructions.push(PendingCmDestruction::Route(cm_id)), ..cm }
}

/// Gives an outbound setup up: its identifier is destroyed later, its route is
/// released and its request fails with `error`.
fn abandon_setup(
    cm: &mut CmState,
    connections: &mut ConnectionRegistry,
    requests: &mut SlotRegistry<OutboundRequest>,
    hold: SetupHold,
    completed: bool,
    error: Error,
    actions: &mut ReactorActions,
)
    requires
        old(cm).wf(),
        old(connections).wf(),
        old(requests).wf(),
    ensures
        final(cm).wf(),
        final(connections).wf(),
        final(requests).wf(),
        final(requests).spent() == old(requests).spent(),
        final(cm)@ == cm_deferred(old(cm)@, hold.cm_id),
        final(connections)@ == ConnectionRegistry::route_released(
            old(connections)@,
            hold.token,
            completed,
        ),
        final(requests)@ == connect_completed(old(requests)@, hold.request, Err(error)),
        final(actions)@ == connect_woken(old(requests)@, hold.request, old(actions)@),
{
    cm.defer_cm_id(hold.cm_id);
    let _ = connections.release_route(hold.token, completed);
    complete_connect(requests, hold.request, Err(error), actions);
}

/// What the start of a connect does next.
pub enum StartStep {
    /// Nothing more; whether the connect is under way.
    Started(bool),
    /// Create an identifier with the context token of this route.
    CreateId { token: CmRouteToken, request: RequestToken, reservation: ConnectionReservation },
    /// Resolve the peer's address on this identifier.
    ResolveAddr(SetupHold),
}

/// Starts a connect.
///
/// A request that was cancelled, or that comes during a shutdown, fails at once; so
/// does one for which the registry has no place.
pub fn start(
    cm: &CmState,
    connections: &mut ConnectionRegistry,
    requests: &mut SlotRegistry<OutboundRequest>,
    request: RequestToken,
    reservation: ConnectionReservation,
    actions: &mut ReactorActions,
) -> (step: StartStep)
    requires
        cm.wf(),
        old(connections).wf(),
        old(requests).wf(),
    ensures
        final(connections).wf(),
        final(requests).wf(),
        final(requests).spent() == old(requests).spent(),
        ({
            let before = old(connections)@;
            if connect_cancelled(old(requests)@, request) || cm@.shutting_down {
                &&& step == StartStep::Started(false)
                &&& final(connections)@ == before
                &&& final(requests)@ == connect_completed(
                    old(requests)@,
                    request,
                    Err(Error::DriverShutdown),
                )
                &&& final(actions)@ == connect_woken(old(requests)@, request, old(actions)@)
            } else if before.slots.entries.dom().len() + before.spent >= before.slots.capacity {
                &&& step == StartStep::Started(false)
                &&& final(connections)@ == before
                &&& final(requests)@ == connect_completed(
                    old(requests)@,
                    request,
                    Err(Error::CapacityExhausted),
                )
                &&& final(actions)@ == connect_woken(old(requests)@, request, old(actions)@)
            } else {
                &&& step matches StartStep::CreateId {
                    token,
                    request: asked,
                    reservation: held,
                } && asked == request && held == reservation && before.slots.may_issue(token)
                    && route_opened(before, final(connections)@, token) && final(requests)@
                    == routed_request(old(requests)@, request, token)
                &&& final(actions)@ == old(actions)@
            }
        }),
        final(actions)@.len() <= old(actions)@.len() + STEP_PUBLICATIONS,
{
    if is_connect_cancelled(requests, request) || cm.shutting_down {
        complete_connect(requests, request, Err(Error::DriverShutdown), actions);
        return StartStep::Started(false);
    }
    match connections.register_outbound() {
        Ok(token) => {
            if let Some(value) = requests.get_mut(request) {
                value.route_token = token.encode();
            }
            StartStep::CreateId { token, request, reservation }
        },
        Err(error) => {
            complete_connect(requests, request, Err(error), actions);
            StartStep::Started(false)
        },
    }
}

/// Whether `after` is the registry once an outbound route was opened under `token`.
pub open spec fn route_opened(
    before: RegistryView,
    after: RegistryView,
    token: CmRouteToken,
) -> bool {
    let entry = after.entry(token);
    &&& after == (RegistryView { slots: before.slots.added(token, entry), ..before })
    &&& after.outbound(token)
    &&& entry.is_establishing() && entry.setup is None
    &&& after.outbound_route(token) == (OutboundRoute {
        raw_id: 0,
        context_key: 0,
        state: OutboundState::Transitioning,
    })
}

/// The table with the route of one connect request recorded.
pub open spec fn routed_request(
    requests: SlotsView<OutboundRequest>,
    request: RequestToken,
    token: CmRouteToken,
) -> SlotsView<OutboundRequest> {
    if requests.entries.contains_key(request) {
        requests.set(
            request,
            OutboundRequest {
                route_token: token.encoded() as u64,
                ..requests.entries[request]
            },
        )
    } else {
        requests
    }
}

/// Why an identifier that was created for a route cannot be used for it.
pub open spec fn identity_refusal(cm: CmView, token: CmRouteToken, cm_id: CmId) -> Option<
    Seq<char>,
> {
    match cm_id.context_token {
        None => Some("engine CM ID lost its route context token"@),
        Some(context) => if context != token.encoded() {
            Some("engine CM context token did not match its route"@)
        } else if cm.routes.contains_key(cm_id.context_key) {
            Some("duplicate CM context identity"@)
        } else {
            None
        },
    }
}

/// The registry with the identity of an outbound route recorded.
pub open spec fn identity_recorded(
    view: RegistryView,
    token: CmRouteToken,
    cm_id: CmId,
) -> RegistryView {
    view.set_outbound(
        token,
        OutboundRoute {
            raw_id: cm_id.raw_id,
            context_key: cm_id.context_key,
            ..view.outbound_route(token)
        },
    )
}

/// Goes on with the start of a connect once the provider was asked for an
/// identifier. From here on events find the route by the identifier's context.
pub fn start_id_created(
    cm: &mut CmState,
    connections: &mut ConnectionRegistry,
    requests: &mut SlotRegistry<OutboundRequest>,
    token: CmRouteToken,
    request: RequestToken,
    reservation: ConnectionReservation,
    created: Result<CmId, Error>,
    actions: &mut ReactorActions,
) -> (step: StartStep)
    requires
        old(cm).wf(),
        old(connections).wf(),
        old(requests).wf(),
        old(connections)@.outbound(token),
    ensures
        final(cm).wf(),
        final(connections).wf(),
        final(requests).wf(),
        final(requests).spent() == old(requests).spent(),
        match created {
            Err(error) => {
                &&& step == StartStep::Started(false)
                &&& final(cm)@ == old(cm)@
                &&& final(connections)@ == ConnectionRegistry::route_released(
                    old(connections)@,
                    token,
                    false,
                )
                &&& final(requests)@ == connect_completed(old(requests)@, request, Err(error))
                &&& final(actions)@ == connect_woken(old(requests)@, request, old(actions)@)
            },
            Ok(cm_id) => match identity_refusal(old(cm)@, token, cm_id) {
                Some(text) => {
                    &&& step == StartStep::Started(false)
                    &&& final(cm)@ == cm_deferred(old(cm)@, cm_id)
                    &&& final(connections)@ == ConnectionRegistry::route_released(
                        if cm_id.context_token == Some(token.encoded() as u64) {
                            identity_recorded(old(connections)@, token, cm_id)
                        } else {
                            old(connections)@
                        },
                        token,
                        false,
                    )
                    &&& exists|error: Error|
                        error.is_invalid_config(text) && final(requests)@
                            == #[trigger] connect_completed(old(requests)@, request, Err(error))
                    &&& final(actions)@ == connect_woken(old(requests)@, request, old(actions)@)
                },
                None => {
                    &&& step == StartStep::ResolveAddr(
                        SetupHold { token, cm_id, request, reservation },
                    )
                    &&& final(cm)@ == (CmView {
                        routes: old(cm)@.routes.insert(
                            cm_id.context_key,
                            ContextRoute::Outbound { token, raw_id: cm_id.raw_id },
                        ),
                        ..old(cm)@
                    })
                    &&& final(connections)@ == identity_recorded(old(connections)@, token, cm_id)
                    &&& final(requests)@ == old(requests)@
                    &&& final(actions)@ == old(actions)@
                },
            },
        },
        final(actions)@.len() <= old(actions)@.len() + STEP_PUBLICATIONS,
{
    let cm_id = match created {
        Ok(cm_id) => cm_id,
        Err(error) => {
            let _ = connections.release_route(token, false);
            complete_connect(requests, request, Err(error), actions);
            return StartStep::Started(false);
        },
    };
    let hold = SetupHold { token, cm_id, request, reservation };
    let matches_route: bool = match hold.cm_id.context_token {
        None => {
            let error = Error::invalid("engine CM ID lost its route context token");
            abandon_setup(cm, connections, requests, hold, false, error, actions);
            return StartStep::Started(false);
        },
        Some(context) => context == token.encode(),
    };
    if !matches_route {
        let error = Error::invalid("engine CM context token did not match its route");
        abandon_setup(cm, connections, requests, hold, false, error, actions);
        return StartStep::Started(false);
    }
    let _ = connections.set_route_identity(token, hold.cm_id.raw_id, hold.cm_id.context_key);
    if !cm.insert_context_route(
        hold.cm_id.context_key,
        ContextRoute::Outbound { token, raw_id: hold.cm_id.raw_id },
    ) {
        let error = Error::invalid("duplicate CM context identity");
        abandon_setup(cm, connections, requests, hold, false, error, actions);
        return StartStep::Started(false);
    }
    StartStep::ResolveAddr(hold)
}

/// Ends the start of a connect once address resolution was asked for.
pub fn start_addr_asked(
    cm: &mut CmState,
    connections: &mut ConnectionRegistry,
    requests: &mut SlotRegistry<OutboundRequest>,
    hold: SetupHold,
    reply: Result<(), Error>,
    actions: &mut ReactorActions,
) -> (started: bool)
    requires
        old(cm).wf(),
        old(connections).wf(),
        old(requests).wf(),
        old(connections)@.outbound(hold.token),
    ensures
        final(cm).wf(),
        final(connections).wf(),
        final(requests).wf(),
        final(requests).spent() == old(requests).spent(),
        started == reply is Ok,
        match reply {
            Ok(()) => {
                &&& final(cm)@ == old(cm)@
                &&& final(connections)@ == old(connections)@.set_outbound_state(
                    hold.token,
                    OutboundState::AwaitAddr {
                        cm_id: hold.cm_id,
                        request: hold.request,
                        reservation: hold.reservation,
                    },
                )
                &&& final(requests)@ == old(requests)@
                &&& final(actions)@ == old(actions)@
            },
            Err(error) => {
                &&& final(cm)@ == cm_deferred(old(cm)@, hold.cm_id)
                &&& final(connections)@ == ConnectionRegistry::route_released(
                    old(connections)@,
                    hold.token,
                    false,
                )
                &&& final(requests)@ == connect_completed(
                    old(requests)@,
                    hold.request,
                    Err(error),
                )
                &&& final(actions)@ == connect_woken(old(requests)@, hold.request, old(actions)@)
            },
        },
        final(actions)@.len() <= old(actions)@.len() + STEP_PUBLICATIONS,
{
    match reply {
        Ok(()) => {
            let _ = connections.set_outbound_state(
                hold.token,
                OutboundState::AwaitAddr {
                    cm_id: hold.cm_id,
                    request: hold.request,
                    reservation: hold.reservation,
                },
            );
            true
        },
        Err(error) => {
            abandon_setup(cm, connections, requests, hold, false, error, actions);
            false
        },
    }
}

/// What the event of an outbound route leads to.
pub enum OutboundStep {
    /// Nothing more.
    Done(EventDisposition),
    /// Check the identifier's device and resolve the route on it.
    ResolveRoute(SetupHold),
    /// Check the identifier's device and build a queue pair on it.
    BuildQp(SetupHold),
    /// Destroy the queue pair of an installation that failed with `error`.
    DestroyFailedInstall {
        token: CmRouteToken,
        request: RequestToken,
        error: Error,
        resources: FailedConnectionInstallResources,
    },
    /// Run the setup of a connection that had `accepted_before` accepted operations.
    RunSetup {
        token: CmRouteToken,
        request: RequestToken,
        setup: ConnectionSetup,
        accepted_before: usize,
    },
    /// Ask the peer to connect, on the identifier with this raw number.
    Connect { token: CmRouteToken, request: RequestToken, raw_id: u64 },
    /// Close and retire a connection; afterwards fail a request, where one is given.
    Teardown { connection: ConnectionToken, failed: Option<(RequestToken, Error)> },
}

/// Whether an outbound setup was given up: its identifier is destroyed later, its
/// route is gone and its request failed with `error`.
pub open spec fn setup_given_up(
    cm: CmView,
    cm_after: CmView,
    view: RegistryView,
    view_after: RegistryView,
    requests: SlotsView<OutboundRequest>,
    requests_after: SlotsView<OutboundRequest>,
    actions: Seq<Action>,
    actions_after: Seq<Action>,
    token: CmRouteToken,
    cm_id: CmId,
    request: RequestToken,
    error: Error,
) -> bool {
    &&& cm_after == cm_deferred(cm, cm_id)
    &&& view_after == ConnectionRegistry::route_released(view, token, true)
    &&& requests_after == connect_completed(requests, request, Err(error))
    &&& actions_after == connect_woken(requests, request, actions)
}

/// The registry while the state of an outbound route is out.
pub open spec fn state_taken(view: RegistryView, token: CmRouteToken) -> RegistryView {
    view.set_outbound_state(token, OutboundState::Transitioning)
}

/// What the resolution of an address reports and leaves.
pub open spec fn addr_resolved(
    cm: CmView,
    cm_after: CmView,
    before: RegistryView,
    after: RegistryView,
    requests: SlotsView<OutboundRequest>,
    requests_after: SlotsView<OutboundRequest>,
    actions: Seq<Action>,
    actions_after: Seq<Action>,
    token: CmRouteToken,
    shutting_down: bool,
    step: OutboundStep,
) -> bool {
    match before.outbound_route(token).state {
        OutboundState::AwaitAddr { cm_id, request, reservation } if before.outbound(token) => if
        connect_cancelled(requests, request) || shutting_down {
            &&& step == OutboundStep::Done(EventDisposition::Handled)
            &&& setup_given_up(
                cm,
                cm_after,
                state_taken(before, token),
                after,
                requests,
                requests_after,
                actions,
                actions_after,
                token,
                cm_id,
                request,
                Error::DriverShutdown,
            )
        } else {
            &&& step == OutboundStep::ResolveRoute(SetupHold { token, cm_id, request, reservation })
            &&& cm_after == cm
            &&& after == state_taken(before, token)
            &&& requests_after == requests
            &&& actions_after == actions
        },
        _ => {
            &&& step == OutboundStep::Done(EventDisposition::Rejected(CmEventReject::Duplicate))
            &&& cm_after == cm
            &&& after == before
            &&& requests_after == requests
            &&& actions_after == actions
        },
    }
}

/// Takes in that the address of a connect was resolved.
pub fn handle_addr_resolved(
    cm: &mut CmState,
    connections: &mut ConnectionRegistry,
    requests: &mut SlotRegistry<OutboundRequest>,
    token: CmRouteToken,
    shutting_down: bool,
    actions: &mut ReactorActions,
) -> (step: OutboundStep)
    requires
        old(cm).wf(),
        old(connections).wf(),
        old(requests).wf(),
    ensures
        final(cm).wf(),
        final(connections).wf(),
        final(requests).wf(),
        final(requests).spent() == old(requests).spent(),
        addr_resolved(
            old(cm)@,
            final(cm)@,
            old(connections)@,
            final(connections)@,
            old(requests)@,
            final(requests)@,
            old(actions)@,
            final(actions)@,
            token,
            shutting_down,
            step,
        ),
{
    let waiting: bool = match connections.outbound_route(token) {
        Some(route) => match &route.state {
            OutboundState::AwaitAddr { .. } => true,
            _ => false,
        },
        None => false,
    };
    if !waiting {
        return OutboundStep::Done(EventDisposition::Rejected(CmEventReject::Duplicate));
    }
    match connections.take_outbound_state(token) {
        OutboundState::AwaitAddr { cm_id, request, reservation } => {
            let hold = SetupHold { token, cm_id, request, reservation };
            if is_connect_cancelled(requests, request) || shutting_down {
                abandon_setup(
                    cm,
                    connections,
                    requests,
                    hold,
                    true,
                    Error::DriverShutdown,
                    actions,
                );
                return OutboundStep::Done(EventDisposition::Handled);
            }
            OutboundStep::ResolveRoute(hold)
        },
        _ => unreached(),
    }
}

/// Goes on with a connect once route resolution was asked for.
pub fn route_asked(
    cm: &mut CmState,
    connections: &mut ConnectionRegistry,
    requests: &mut SlotRegistry<OutboundRequest>,
    hold: SetupHold,
    reply: Result<(), Error>,
    actions: &mut ReactorActions,
) -> (disposition: EventDisposition)
    requires
        old(cm).wf(),
        old(connections).wf(),
        old(requests).wf(),
        old(connections)@.outbound(hold.token),
    ensures
        final(cm).wf(),
        final(connections).wf(),
        final(requests).wf(),
        final(requests).spent() == old(requests).spent(),
        disposition == EventDisposition::Handled,
        match reply {
            Ok(()) => {
                &&& final(cm)@ == old(cm)@
                &&& final(connections)@ == old(connections)@.set_outbound_state(
                    hold.token,
                    OutboundState::AwaitRoute {
                        cm_id: hold.cm_id,
                        request: hold.request,
                        reservation: hold.reservation,
                    },
                )
                &&& final(requests)@ == old(requests)@
                &&& final(actions)@ == old(actions)@
            },
            Err(error) => setup_given_up(
                old(cm)@,
                final(cm)@,
                old(connections)@,
                final(connections)@,
                old(requests)@,
                final(requests)@,
                old(actions)@,
                final(actions)@,
                hold.token,
                hold.cm_id,
                hold.request,
                error,
            ),
        },
        final(actions)@.len() <= old(actions)@.len() + STEP_PUBLICATIONS,
{
    match reply {
        Ok(()) => {
            let _ = connections.set_outbound_state(
                hold.token,
                OutboundState::AwaitRoute {
                    cm_id: hold.cm_id,
                    request: hold.request,
                    reservation: hold.reservation,
                },
            );
        },
        Err(error) => {
            abandon_setup(cm, connections, requests, hold, true, error, actions);
        },
    }
    EventDisposition::Handled
}

/// What the resolution of a route reports and leaves.
pub open spec fn route_resolved(
    cm: CmView,
    cm_after: CmView,
    before: RegistryView,
    after: RegistryView,
    requests: SlotsView<OutboundRequest>,
    requests_after: SlotsView<OutboundRequest>,
    actions: Seq<Action>,
    actions_after: Seq<Action>,
    token: CmRouteToken,
    shutting_down: bool,
    step: OutboundStep,
) -> bool {
    match before.outbound_route(token).state {
        OutboundState::AwaitRoute { cm_id, request, reservation } if before.outbound(token) => if
        connect_cancelled(requests, request) || shutting_down {
            &&& step == OutboundStep::Done(EventDisposition::Handled)
            &&& setup_given_up(
                cm,
                cm_after,
                state_taken(before, token),
                after,
                requests,
                requests_after,
                actions,
                actions_after,
                token,
                cm_id,
                request,
                Error::DriverShutdown,
            )
        } else {
            &&& step == OutboundStep::BuildQp(SetupHold { token, cm_id, request, reservation })
            &&& cm_after == cm
            &&& after == state_taken(before, token)
            &&& requests_after == requests
            &&& actions_after == actions
        },
        _ => {
            &&& step == OutboundStep::Done(EventDisposition::Rejected(CmEventReject::Duplicate))
            &&& cm_after == cm
            &&& after == before
            &&& requests_after == requests
            &&& actions_after == actions
        },
    }
}

/// Takes in that the route of a connect was resolved.
pub fn handle_route_resolved(
    cm: &mut CmState,
    connections: &mut ConnectionRegistry,
    requests: &mut SlotRegistry<OutboundRequest>,
    token: CmRouteToken,
    shutting_down: bool,
    actions: &mut ReactorActions,
) -> (step: OutboundStep)
    requires
        old(cm).wf(),
        old(connections).wf(),
        old(requests).wf(),
    ensures
        final(cm).wf(),
        final(connections).wf(),
        final(requests).wf(),
        final(requests).spent() == old(requests).spent(),
        route_resolved(
            old(cm)@,
            final(cm)@,
            old(connections)@,
            final(connections)@,
            old(requests)@,
            final(requests)@,
            old(actions)@,
            final(actions)@,
            token,
            shutting_down,
            step,
        ),
{
    let waiting: bool = match connections.outbound_route(token) {
        Some(route) => match &route.state {
            OutboundState::AwaitRoute { .. } => true,
            _ => false,
        },
        None => false,
    };
    if !waiting {
        return OutboundStep::Done(EventDisposition::Rejected(CmEventReject::Duplicate));
    }
    match connections.take_outbound_state(token) {
        OutboundState::AwaitRoute { cm_id, request, reservation } => {
            let hold = SetupHold { token, cm_id, request, reservation };
            if is_connect_cancelled(requests, request) || shutting_down {
                abandon_setup(
                    cm,
                    connections,
                    requests,
                    hold,
                    true,
                    Error::DriverShutdown,
                    actions,
                );
                return OutboundStep::Done(EventDisposition::Handled);
            }
            OutboundStep::BuildQp(hold)
        },
        _ => unreached(),
    }
}

/// A queue pair that was built for a connection, with what is known of its ends.
pub struct BuiltQp {
    pub qp_num: u32,
    pub capabilities: QpCapabilities,
    pub local_addr: Option<String>,
    pub peer_addr: Option<String>,
    /// Whether the engine takes the connection's configuration.
    pub config_check: Result<(), Error>,
    /// Whether the configuration makes parameters that a peer can be asked with.
    pub parameters_check: Result<(), Error>,
}

/// The poster of a connection on an engine-made queue pair.
pub open spec fn built_poster(built: BuiltQp, cm_id: CmId) -> ConnectionPoster {
    ConnectionPoster::Verbs(
        VerbsConnectionResources {
            has_qp: true,
            qp_num: built.qp_num,
            capabilities: built.capabilities,
            cm_owner: Some(cm_id),
        },
    )
}

/// Why a built queue pair cannot be installed on the route it was built for.
pub open spec fn build_refused(
    view: RegistryView,
    token: CmRouteToken,
    built: BuiltQp,
    config: RdmaConnectionConfig,
) -> bool {
    ||| built.config_check is Err
    ||| !built.capabilities.covers(config)
    ||| ConnectionRegistry::attach_refusal(view, token, built.qp_num) is Some
}

/// Whether `error` says why a built queue pair cannot be installed.
pub open spec fn build_refusal(
    view: RegistryView,
    token: CmRouteToken,
    built: BuiltQp,
    config: RdmaConnectionConfig,
    error: Error,
) -> bool {
    match built.config_check {
        Err(cause) => error == cause,
        Ok(()) => if !built.capabilities.covers(config) {
            error.is_invalid_config(built.capabilities.shortfall(config))
        } else {
            error.is_invalid_config(
                ConnectionRegistry::attach_refusal(view, token, built.qp_num)->0,
            )
        },
    }
}

/// Whether `after` is the registry once a connection was attached to the route that
/// its queue pair was built for.
pub open spec fn attached(
    before: RegistryView,
    after: RegistryView,
    token: CmRouteToken,
    poster: ConnectionPoster,
    local_addr: Option<String>,
    peer_addr: Option<String>,
    reservation: ConnectionReservation,
) -> bool {
    &&& after.connection(token).is_fresh(
        token,
        poster,
        local_addr,
        peer_addr,
        Some(reservation),
    )
    &&& after == (RegistryView {
        qp_index: before.qp_index.insert(poster.queue_pair(), token),
        ..before.set_connection(token, after.connection(token))
    })
}

/// Goes on with a connect once a queue pair was asked for.
///
/// What was built is installed on the route before its setup runs. A connect whose
/// parameters cannot be stated fails before its setup.
pub fn route_qp_built(
    cm: &mut CmState,
    connections: &mut ConnectionRegistry,
    requests: &mut SlotRegistry<OutboundRequest>,
    hold: SetupHold,
    built: Result<BuiltQp, Error>,
    actions: &mut ReactorActions,
) -> (step: OutboundStep)
    requires
        old(cm).wf(),
        old(connections).wf(),
        old(requests).wf(),
        old(connections)@.outbound(hold.token),
        old(requests)@.entries.contains_key(hold.request),
    ensures
        final(cm).wf(),
        final(connections).wf(),
        final(requests).wf(),
        final(requests).spent() == old(requests).spent(),
        match built {
            Err(error) => {
                &&& step == OutboundStep::Done(EventDisposition::Handled)
                &&& setup_given_up(
                    old(cm)@,
                    final(cm)@,
                    old(connections)@,
                    final(connections)@,
                    old(requests)@,
                    final(requests)@,
                    old(actions)@,
                    final(actions)@,
                    hold.token,
                    hold.cm_id,
                    hold.request,
                    error,
                )
            },
            Ok(qp) => {
                let poster = built_poster(qp, hold.cm_id);
                let config = old(requests)@.entries[hold.request].config;
                &&& final(cm)@ == old(cm)@
                &&& final(actions)@ == old(actions)@
                &&& if build_refused(old(connections)@, hold.token, qp, config) {
                    &&& final(connections)@ == old(connections)@
                    &&& final(requests)@ == old(requests)@
                    &&& step matches OutboundStep::DestroyFailedInstall {
                        token,
                        request,
                        error,
                        resources,
                    } && token == hold.token && request == hold.request && build_refusal(
                        old(connections)@,
                        hold.token,
                        qp,
                        config,
                        error,
                    ) && resources.poster() == poster && resources.keeps(
                        hold.token,
                        hold.reservation,
                    )
                } else {
                    let setup = old(requests)@.entries[hold.request].setup;
                    &&& final(requests)@ == old(requests)@.set(
                        hold.request,
                        OutboundRequest { setup: None, ..old(requests)@.entries[hold.request] },
                    )
                    &&& exists|installed: RegistryView| #[trigger]
                        attached(
                            old(connections)@,
                            installed,
                            hold.token,
                            poster,
                            qp.local_addr,
                            qp.peer_addr,
                            hold.reservation,
                        ) && match (setup, qp.parameters_check) {
                            (Some(chosen), Ok(())) => {
                                &&& final(connections)@ == installed
                                &&& step == OutboundStep::RunSetup {
                                    token: hold.token,
                                    request: hold.request,
                                    setup: chosen,
                                    accepted_before: 0,
                                }
                            },
                            (Some(_), Err(error)) => {
                                &&& final(connections)@ == failing(installed, hold.token, hold.token)
                                &&& step == OutboundStep::Teardown {
                                    connection: hold.token,
                                    failed: Some((hold.request, error)),
                                }
                            },
                            (None, _) => {
                                &&& final(connections)@ == failing(installed, hold.token, hold.token)
                                &&& step matches OutboundStep::Teardown {
                                    connection,
                                    failed: Some((request, error)),
                                } && connection == hold.token && request == hold.request
                                    && error.is_invalid_config(
                                    "outbound request setup was consumed more than once"@,
                                )
                            },
                        }
                }
            },
        },
        final(actions)@.len() <= old(actions)@.len() + STEP_PUBLICATIONS,
{
    let qp = match built {
        Ok(qp) => qp,
        Err(error) => {
            abandon_setup(cm, connections, requests, hold, true, error, actions);
            return OutboundStep::Done(EventDisposition::Handled);
        },
    };
    let config: RdmaConnectionConfig = match requests.get(hold.request) {
        Some(value) => value.config,
        None => unreached(),
    };
    let poster = ConnectionPoster::Verbs(
        VerbsConnectionResources::new_shared(qp.qp_num, qp.capabilities, hold.cm_id),
    );
    match install_reserved_connection(
        connections,
        Some(hold.token),
        poster,
        &config,
        qp.config_check,
        qp.local_addr,
        qp.peer_addr,
        hold.reservation,
    ) {
        Err(failure) => {
            let (error, resources) = failure.into_parts();
            OutboundStep::DestroyFailedInstall {
                token: hold.token,
                request: hold.request,
                error,
                resources,
            }
        },
        Ok(_) => {
            let ghost installed = connections@;
            assert(attached(
                old(connections)@,
                installed,
                hold.token,
                built_poster(built->Ok_0, hold.cm_id),
                qp.local_addr,
                qp.peer_addr,
                hold.reservation,
            ));
            let setup = match requests.get_mut(hold.request) {
                Some(value) => value.take_setup(),
                None => None,
            };
            let error = match (setup, qp.parameters_check) {
                (Some(setup), Ok(())) => {
                    return OutboundStep::RunSetup {
                        token: hold.token,
                        request: hold.request,
                        setup,
                        accepted_before: connections.accepted_count(hold.token),
                    };
                },
                (Some(_), Err(error)) => error,
                (None, _) => Error::invalid("outbound request setup was consumed more than once"),
            };
            close_failed_connect(connections, hold.token, hold.token);
            OutboundStep::Teardown { connection: hold.token, failed: Some((hold.request, error)) }
        },
    }
}

/// The registry with an outbound route closing because its connect failed.
pub open spec fn failing(
    view: RegistryView,
    token: CmRouteToken,
    connection: ConnectionToken,
) -> RegistryView {
    view.set_outbound_state(
        token,
        OutboundState::Closing { connection: EstablishedConnectionRoute { token: connection } },
    )
}

fn close_failed_connect(
    connections: &mut ConnectionRegistry,
    token: CmRouteToken,
    connection: ConnectionToken,
)
    requires
        old(connections).wf(),
        old(connections)@.outbound(token),
    ensures
        final(connections).wf(),
        final(connections)@ == failing(old(connections)@, token, connection),
{
    let _ = connections.set_outbound_state(
        token,
        OutboundState::Closing { connection: EstablishedConnectionRoute::new(connection) },
    );
}

/// What failing a connect whose queue pair is registered reports and leaves.
pub open spec fn connect_failed(
    before: RegistryView,
    after: RegistryView,
    token: CmRouteToken,
    connection: ConnectionToken,
    request: RequestToken,
    error: Error,
    result: Result<OutboundStep, Error>,
) -> bool {
    if before.connected(connection) {
        &&& result == Ok::<OutboundStep, Error>(
            OutboundStep::Teardown { connection, failed: Some((request, error)) },
        )
        &&& after == failing(before, token, connection)
    } else {
        &&& result matches Err(lost) && lost.is_invalid_config(
            "registered outbound connection disappeared before close"@,
        )
        &&& after == before
    }
}

/// Fails a connect whose queue pair is registered: its connection is closed and
/// retired, and then its request fails with `error`.
pub fn fail_registered_connection(
    connections: &mut ConnectionRegistry,
    token: CmRouteToken,
    request: RequestToken,
    connection: ConnectionToken,
    error: Error,
) -> (result: Result<OutboundStep, Error>)
    requires
        old(connections).wf(),
        old(connections)@.outbound(token),
    ensures
        final(connections).wf(),
        connect_failed(
            old(connections)@,
            final(connections)@,
            token,
            connection,
            request,
            error,
            result,
        ),
{
    if connections.connection(connection).is_none() {
        return Err(Error::invalid("registered outbound connection disappeared before close"));
    }
    close_failed_connect(connections, token, connection);
    Ok(OutboundStep::Teardown { connection, failed: Some((request, error)) })
}

/// Fails a connect request after its connection was closed and retired.
pub fn finish_failed_connect(
    requests: &mut SlotRegistry<OutboundRequest>,
    request: RequestToken,
    error: Error,
    actions: &mut ReactorActions,
)
    requires
        old(requests).wf(),
    ensures
        final(requests).wf(),
        final(requests)@ == connect_completed(old(requests)@, request, Err(error)),
        final(requests).spent() == old(requests).spent(),
        final(actions)@ == connect_woken(old(requests)@, request, old(actions)@),
        final(actions)@.len() <= old(actions)@.len() + STEP_PUBLICATIONS,
{
    complete_connect(requests, request, Err(error), actions);
}

/// Goes on with a connect whose installation failed with `error`, once the provider
/// answered the destruction of its queue pair.
///
/// What could not be destroyed stays with the route, in quarantine.
pub fn failed_install_destroyed(
    cm: &mut CmState,
    connections: &mut ConnectionRegistry,
    requests: &mut SlotRegistry<OutboundRequest>,
    token: CmRouteToken,
    request: RequestToken,
    error: Error,
    resources: FailedConnectionInstallResources,
    reply: Result<bool, Error>,
    actions: &mut ReactorActions,
) -> (disposition: EventDisposition)
    requires
        old(cm).wf(),
        old(connections).wf(),
        old(requests).wf(),
    ensures
        final(cm).wf(),
        final(connections).wf(),
        final(requests).wf(),
        final(requests).spent() == old(requests).spent(),
        disposition == EventDisposition::Handled,
        final(requests)@ == connect_completed(old(requests)@, request, Err(error)),
        final(actions)@ == connect_woken(old(requests)@, request, old(actions)@),
        if resources.destroyed(reply) {
            &&& final(cm)@ == match resources.poster().cm_owner() {
                Some(cm_id) => cm_deferred(old(cm)@, cm_id),
                None => old(cm)@,
            }
            &&& final(connections)@ == ConnectionRegistry::route_released(
                old(connections)@,
                token,
                true,
            )
        } else {
            &&& final(cm)@ == old(cm)@
            &&& final(connections)@ == quarantined_route(
                install_retained(old(connections)@, token, resources.after_destroy(reply)),
                token,
            )
        },
        final(actions)@.len() <= old(actions)@.len() + STEP_PUBLICATIONS,
{
    let mut resources = resources;
    match resources.destroy_for_session(reply) {
        Ok(cm_id) => {
            if let Some(cm_id) = cm_id {
                cm.defer_cm_id(cm_id);
            }
            let _ = connections.release_route(token, true);
        },
        Err(_) => {
            retain_failed_install(connections, token, resources);
            let _ = connections.set_outbound_state(
                token,
                OutboundState::Quarantined { connection: None },
            );
        },
    }
    complete_connect(requests, request, Err(error), actions);
    EventDisposition::Handled
}

/// The registry with an outbound route quarantined, where it is there.
pub open spec fn quarantined_route(view: RegistryView, token: CmRouteToken) -> RegistryView {
    if view.outbound(token) {
        view.set_outbound_state(token, OutboundState::Quarantined { connection: None })
    } else {
        view
    }
}

/// Whether a connect may still be established.
pub open spec fn connect_gate(
    requests: SlotsView<OutboundRequest>,
    request: RequestToken,
    shutting_down: bool,
) -> Result<(), Error> {
    if connect_cancelled(requests, request) || shutting_down {
        Err(Error::DriverShutdown)
    } else {
        Ok(())
    }
}

/// What asking the peer to connect needs: an identifier, on a connection that is
/// still there.
pub open spec fn connect_asked(
    before: RegistryView,
    after: RegistryView,
    token: CmRouteToken,
    request: RequestToken,
    result: Result<OutboundStep, Error>,
) -> bool {
    match before.connection(token).poster {
        ConnectionPoster::Verbs(resources) => match resources.cm_owner {
            Some(cm_id) => {
                &&& result == Ok::<OutboundStep, Error>(
                    OutboundStep::Connect { token, request, raw_id: cm_id.raw_id },
                )
                &&& after == before
            },
            None => connect_failed(
                before,
                after,
                token,
                token,
                request,
                Error::TransportClosed,
                result,
            ),
        },
        ConnectionPoster::Synthetic { .. } => exists|error: Error|
            error.is_invalid_config("synthetic connection cannot initiate RDMA-CM connect"@)
                && #[trigger] connect_failed(before, after, token, token, request, error, result),
    }
}

/// Goes on with a connect once its setup ran.
pub fn route_setup_done(
    connections: &mut ConnectionRegistry,
    requests: &SlotRegistry<OutboundRequest>,
    token: CmRouteToken,
    request: RequestToken,
    accepted_before: usize,
    setup: Result<usize, Error>,
    shutting_down: bool,
) -> (result: Result<OutboundStep, Error>)
    requires
        old(connections).wf(),
        requests.wf(),
        old(connections)@.outbound(token),
    ensures
        final(connections).wf(),
        exists|outcome: Result<SetupSummary, Error>| #[trigger]
            setup_outcome(
                old(connections)@,
                token,
                accepted_before,
                setup,
                connect_gate(requests@, request, shutting_down),
                outcome,
            ) && match outcome {
                Err(error) => connect_failed(
                    old(connections)@,
                    final(connections)@,
                    token,
                    token,
                    request,
                    error,
                    result,
                ),
                Ok(_) => connect_asked(
                    old(connections)@,
                    final(connections)@,
                    token,
                    request,
                    result,
                ),
            },
{
    let gate: Result<(), Error> = if is_connect_cancelled(requests, request) || shutting_down {
        Err(Error::DriverShutdown)
    } else {
        Ok(())
    };
    let outcome = run_setup_before_establish(connections, token, accepted_before, setup, gate);
    assert(setup_outcome(
        old(connections)@,
        token,
        accepted_before,
        setup,
        connect_gate(requests@, request, shutting_down),
        outcome,
    ));
    if let Err(error) = outcome {
        return fail_registered_connection(connections, token, request, token, error);
    }
    let target: Result<u64, Error> = match connections.connection(token) {
        Some(connection) => connection.poster.connect(),
        None => Err(Error::TransportClosed),
    };
    match target {
        Ok(raw_id) => Ok(OutboundStep::Connect { token, request, raw_id }),
        Err(error) => fail_registered_connection(connections, token, request, token, error),
    }
}

/// Goes on with a connect once the peer was asked to connect.
pub fn connect_replied(
    connections: &mut ConnectionRegistry,
    requests: &SlotRegistry<OutboundRequest>,
    token: CmRouteToken,
    request: RequestToken,
    reply: Result<(), Error>,
    shutting_down: bool,
) -> (result: Result<OutboundStep, Error>)
    requires
        old(connections).wf(),
        requests.wf(),
        old(connections)@.outbound(token),
    ensures
        final(connections).wf(),
        match reply {
            Err(error) => connect_failed(
                old(connections)@,
                final(connections)@,
                token,
                token,
                request,
                error,
                result,
            ),
            Ok(()) => if connect_cancelled(requests@, request) || shutting_down {
                connect_failed(
                    old(connections)@,
                    final(connections)@,
                    token,
                    token,
                    request,
                    Error::DriverShutdown,
                    result,
                )
            } else {
                &&& result == Ok::<OutboundStep, Error>(
                    OutboundStep::Done(EventDisposition::Handled),
                )
                &&& final(connections)@ == old(connections)@.set_outbound_state(
                    token,
                    OutboundState::AwaitEstablished { request, connection: token },
                )
            },
        },
{
    if let Err(error) = reply {
        return fail_registered_connection(connections, token, request, token, error);
    }
    if is_connect_cancelled(requests, request) || shutting_down {
        return fail_registered_connection(
            connections,
            token,
            request,
            token,
            Error::DriverShutdown,
        );
    }
    let _ = connections.set_outbound_state(
        token,
        OutboundState::AwaitEstablished { request, connection: token },
    );
    Ok(OutboundStep::Done(EventDisposition::Handled))
}

/// What an establishment event of an outbound route reports and leaves.
pub open spec fn established(
    before: RegistryView,
    after: RegistryView,
    requests: SlotsView<OutboundRequest>,
    requests_after: SlotsView<OutboundRequest>,
    actions: Seq<Action>,
    actions_after: Seq<Action>,
    token: CmRouteToken,
    shutting_down: bool,
    result: Result<OutboundStep, Error>,
) -> bool {
    match before.outbound_route(token).state {
        OutboundState::AwaitEstablished { request, connection } if before.outbound(token) => if
        connect_cancelled(requests, request) || shutting_down {
            &&& connect_failed(
                state_taken(before, token),
                after,
                token,
                connection,
                request,
                Error::DriverShutdown,
                result,
            )
            &&& requests_after == requests
            &&& actions_after == actions
        } else {
            let awaiting = before.set_outbound_state(
                token,
                OutboundState::EstablishedAwaitingDelivery {
                    request,
                    connection: EstablishedConnectionRoute { token: connection },
                },
            );
            if awaiting.has(connection) && awaiting.entry(connection).is_registered() {
                &&& result == Ok::<OutboundStep, Error>(
                    OutboundStep::Done(EventDisposition::Handled),
                )
                &&& after == activated(awaiting, connection)
                &&& requests_after == connect_completed(requests, request, Ok(connection))
                &&& actions_after == connect_woken(requests, request, actions)
            } else {
                &&& result matches Err(error) && error.is_invalid_config(
                    "outbound connection disappeared before establishment"@,
                )
                &&& after == awaiting
                &&& requests_after == requests
                &&& actions_after == actions
            }
        },
        _ => {
            &&& result == Ok::<OutboundStep, Error>(
                OutboundStep::Done(EventDisposition::Rejected(CmEventReject::Duplicate)),
            )
            &&& after == before
            &&& requests_after == requests
            &&& actions_after == actions
        },
    }
}

/// The registry with a connection established.
pub open spec fn activated(view: RegistryView, connection: ConnectionToken) -> RegistryView {
    view.set(
        connection,
        ConnectionEntry { lifecycle: Lifecycle::Active, ..view.entry(connection) },
    )
}

/// Takes in that a connect was established.
///
/// The request gets its connection, unless it was cancelled or a shutdown came first.
pub fn handle_established(
    connections: &mut ConnectionRegistry,
    requests: &mut SlotRegistry<OutboundRequest>,
    token: CmRouteToken,
    shutting_down: bool,
    actions: &mut ReactorActions,
) -> (result: Result<OutboundStep, Error>)
    requires
        old(connections).wf(),
        old(requests).wf(),
    ensures
        final(connections).wf(),
        final(requests).wf(),
        final(requests).spent() == old(requests).spent(),
        established(
            old(connections)@,
            final(connections)@,
            old(requests)@,
            final(requests)@,
            old(actions)@,
            final(actions)@,
            token,
            shutting_down,
            result,
        ),
{
    let (request, connection): (RequestToken, ConnectionToken) = match connections.outbound_route(
        token,
    ) {
        Some(route) => match &route.state {
            OutboundState::AwaitEstablished { request, connection } => (*request, *connection),
            _ => {
                return Ok(
                    OutboundStep::Done(EventDisposition::Rejected(CmEventReject::Duplicate)),
                );
            },
        },
        None => {
            return Ok(OutboundStep::Done(EventDisposition::Rejected(CmEventReject::Duplicate)));
        },
    };
    if is_connect_cancelled(requests, request) || shutting_down {
        let _ = connections.take_outbound_state(token);
        return fail_registered_connection(
            connections,
            token,
            request,
            connection,
            Error::DriverShutdown,
        );
    }
    let _ = connections.set_outbound_state(
        token,
        OutboundState::EstablishedAwaitingDelivery {
            request,
            connection: EstablishedConnectionRoute::new(connection),
        },
    );
    if !connections.mark_active(connection) {
        return Err(Error::invalid("outbound connection disappeared before establishment"));
    }
    complete_connect(requests, request, Ok(connection), actions);
    Ok(OutboundStep::Done(EventDisposition::Handled))
}

/// Whether the waiter of a connect request has taken its connection.
pub open spec fn connect_delivered(
    requests: SlotsView<OutboundRequest>,
    request: RequestToken,
) -> bool {
    requests.entries.contains_key(request) && requests.entries[request].delivered
}

pub fn is_connect_delivered(requests: &SlotRegistry<OutboundRequest>, request: RequestToken) -> (delivered:
    bool)
    requires
        requests.wf(),
    ensures
        delivered == connect_delivered(requests@, request),
{
    match requests.get(request) {
        Some(value) => value.delivered,
        None => false,
    }
}

/// What a disconnect of an outbound route reports and leaves. `aborted` is the error
/// of a connect that was not established.
pub open spec fn disconnected(
    before: RegistryView,
    after: RegistryView,
    requests: SlotsView<OutboundRequest>,
    actions: Seq<Action>,
    actions_after: Seq<Action>,
    token: CmRouteToken,
    aborted: Error,
    result: Result<OutboundStep, Error>,
) -> bool {
    match before.outbound_route(token).state {
        OutboundState::AwaitEstablished { request, connection } if before.outbound(token) => {
            &&& connect_failed(
                state_taken(before, token),
                after,
                token,
                connection,
                request,
                aborted,
                result,
            )
            &&& actions_after == actions
        },
        OutboundState::EstablishedAwaitingDelivery { request, connection } if before.outbound(
            token,
        ) => if before.connected(connection.token) {
            let ended = before.set_connection(
                connection.token,
                ConnectionState { io_closed: true, ..before.connection(connection.token) },
            );
            &&& result == Ok::<OutboundStep, Error>(
                OutboundStep::Teardown { connection: connection.token, failed: None },
            )
            &&& after == ended.set_outbound_state(
                token,
                if connect_delivered(requests, request) {
                    OutboundState::Disconnected { connection }
                } else {
                    OutboundState::DisconnectedAwaitingDelivery { request, connection }
                },
            )
            &&& actions_after == actions.push(
                Action::IoEvent {
                    connection: connection.token,
                    event: IoTerminalEvent::Disconnected,
                },
            )
        } else {
            &&& result == Ok::<OutboundStep, Error>(OutboundStep::Done(EventDisposition::Handled))
            &&& after == ConnectionRegistry::route_released(
                state_taken(before, token),
                token,
                true,
            )
            &&& actions_after == actions
        },
        state => {
            &&& result == Ok::<OutboundStep, Error>(
                OutboundStep::Done(
                    EventDisposition::Rejected(
                        if before.outbound(token) && state.disconnected() {
                            CmEventReject::Duplicate
                        } else {
                            CmEventReject::Unexpected
                        },
                    ),
                ),
            )
            &&& after == before
            &&& actions_after == actions
        },
    }
}

/// Takes in that the peer of an outbound route disconnected.
pub fn handle_disconnected(
    connections: &mut ConnectionRegistry,
    requests: &SlotRegistry<OutboundRequest>,
    token: CmRouteToken,
    actions: &mut ReactorActions,
) -> (result: Result<OutboundStep, Error>)
    requires
        old(connections).wf(),
        requests.wf(),
    ensures
        final(connections).wf(),
        exists|aborted: Error|
            aborted.is_verbs(
                IoErrorKind::ConnectionAborted,
                "peer disconnected before outbound establishment"@,
            ) && #[trigger] disconnected(
                old(connections)@,
                final(connections)@,
                requests@,
                old(actions)@,
                final(actions)@,
                token,
                aborted,
                result,
            ),
{
    let aborted = Error::Verbs(
        IoError::new(
            IoErrorKind::ConnectionAborted,
            owned("peer disconnected before outbound establishment"),
        ),
    );
    let ghost cause = aborted;
    let (request, connection): (RequestToken, EstablishedConnectionRoute) = match connections.outbound_route(
        token,
    ) {
        Some(route) => match &route.state {
            OutboundState::AwaitEstablished { request, connection } => {
                let (request, connection): (RequestToken, ConnectionToken) = (
                    *request,
                    *connection,
                );
                let _ = connections.take_outbound_state(token);
                let result = fail_registered_connection(
                    connections,
                    token,
                    request,
                    connection,
                    aborted,
                );
                assert(disconnected(
                    old(connections)@,
                    connections@,
                    requests@,
                    old(actions)@,
                    actions@,
                    token,
                    cause,
                    result,
                ));
                return result;
            },
            OutboundState::EstablishedAwaitingDelivery { request, connection } => (
                *request,
                *connection,
            ),
            _ => {
                let reject = if route.is_disconnected() {
                    CmEventReject::Duplicate
                } else {
                    CmEventReject::Unexpected
                };
                let result: Result<OutboundStep, Error> = Ok(
                    OutboundStep::Done(EventDisposition::Rejected(reject)),
                );
                assert(disconnected(
                    old(connections)@,
                    connections@,
                    requests@,
                    old(actions)@,
                    actions@,
                    token,
                    cause,
                    result,
                ));
                return result;
            },
        },
        None => {
            let result: Result<OutboundStep, Error> = Ok(
                OutboundStep::Done(EventDisposition::Rejected(CmEventReject::Unexpected)),
            );
            assert(disconnected(
                old(connections)@,
                connections@,
                requests@,
                old(actions)@,
                actions@,
                token,
                cause,
                result,
            ));
            return result;
        },
    };
    if connections.connection(connection.token).is_none() {
        let _ = connections.take_outbound_state(token);
        let _ = connections.release_route(token, true);
        let result: Result<OutboundStep, Error> = Ok(OutboundStep::Done(EventDisposition::Handled));
        assert(disconnected(
            old(connections)@,
            connections@,
            requests@,
            old(actions)@,
            actions@,
            token,
            cause,
            result,
        ));
        return result;
    }
    if let Some(ended) = connections.connection_mut(connection.token) {
        let event = ended.mark_disconnected();
        actions.push(Action::IoEvent { connection: connection.token, event });
    }
    let next = if is_connect_delivered(requests, request) {
        OutboundState::Disconnected { connection }
    } else {
        OutboundState::DisconnectedAwaitingDelivery { request, connection }
    };
    let _ = connections.set_outbound_state(token, next);
    let result: Result<OutboundStep, Error> = Ok(
        OutboundStep::Teardown { connection: connection.token, failed: None },
    );
    assert(disconnected(
        old(connections)@,
        connections@,
        requests@,
        old(actions)@,
        actions@,
        token,
        cause,
        result,
    ));
    result
}

/// What a failure of an established connection reports and leaves, its route going
/// on to `next`.
pub open spec fn established_failed(
    before: RegistryView,
    after: RegistryView,
    actions: Seq<Action>,
    actions_after: Seq<Action>,
    token: CmRouteToken,
    connection: ConnectionToken,
    next: OutboundState,
    failure: Error,
    result: Result<OutboundStep, Error>,
) -> bool {
    if before.connected(connection) {
        &&& result == Ok::<OutboundStep, Error>(
            OutboundStep::Teardown { connection, failed: None },
        )
        &&& after == before.set_connection(
            connection,
            before.connection(connection).cm_failed(failure),
        ).set_outbound_state(token, next)
        &&& actions_after == actions.push(
            Action::WakeClose { connection: before.connection(connection).token },
        ).push(Action::IoEvent { connection, event: IoTerminalEvent::Terminal(failure) })
    } else {
        &&& result == Ok::<OutboundStep, Error>(OutboundStep::Done(EventDisposition::Handled))
        &&& after == ConnectionRegistry::route_released(state_taken(before, token), token, true)
        &&& actions_after == actions
    }
}

fn fail_established(
    connections: &mut ConnectionRegistry,
    token: CmRouteToken,
    connection: ConnectionToken,
    next: OutboundState,
    failure: Error,
    actions: &mut ReactorActions,
) -> (result: Result<OutboundStep, Error>)
    requires
        old(connections).wf(),
        old(connections)@.outbound(token),
    ensures
        final(connections).wf(),
        established_failed(
            old(connections)@,
            final(connections)@,
            old(actions)@,
            final(actions)@,
            token,
            connection,
            next,
            failure,
            result,
        ),
{
    if connections.connection(connection).is_none() {
        let _ = connections.take_outbound_state(token);
        let _ = connections.release_route(token, true);
        return Ok(OutboundStep::Done(EventDisposition::Handled));
    }
    if let Some(ended) = connections.connection_mut(connection) {
        let event = ended.mark_cm_failure_into(failure, actions);
        actions.push(Action::IoEvent { connection, event });
    }
    let _ = connections.set_outbound_state(token, next);
    Ok(OutboundStep::Teardown { connection, failed: None })
}

/// What the failure event of an outbound route reports and leaves.
pub open spec fn failure_handled(
    cm: CmView,
    cm_after: CmView,
    before: RegistryView,
    after: RegistryView,
    requests: SlotsView<OutboundRequest>,
    requests_after: SlotsView<OutboundRequest>,
    actions: Seq<Action>,
    actions_after: Seq<Action>,
    token: CmRouteToken,
    shutting_down: bool,
    failure: Error,
    result: Result<OutboundStep, Error>,
) -> bool {
    let state = before.outbound_route(token).state;
    if before.outbound(token) && (state is AwaitAddr || state is AwaitRoute) {
        let (cm_id, request) = match state {
            OutboundState::AwaitAddr { cm_id, request, .. } => (cm_id, request),
            OutboundState::AwaitRoute { cm_id, request, .. } => (cm_id, request),
            _ => arbitrary(),
        };
        let late = connect_cancelled(requests, request) || shutting_down;
        &&& result == Ok::<OutboundStep, Error>(
            OutboundStep::Done(
                if late {
                    EventDisposition::IgnoredAfterShutdown
                } else {
                    EventDisposition::Handled
                },
            ),
        )
        &&& setup_given_up(
            cm,
            cm_after,
            state_taken(before, token),
            after,
            requests,
            requests_after,
            actions,
            actions_after,
            token,
            cm_id,
            request,
            if late {
                Error::DriverShutdown
            } else {
                failure
            },
        )
    } else {
        &&& cm_after == cm
        &&& requests_after == requests
        &&& if !before.outbound(token) {
            &&& result == Ok::<OutboundStep, Error>(
                OutboundStep::Done(EventDisposition::Rejected(CmEventReject::Duplicate)),
            )
            &&& after == before
            &&& actions_after == actions
        } else {
            match state {
                OutboundState::AwaitEstablished { request, connection } => {
                    &&& connect_failed(
                        state_taken(before, token),
                        after,
                        token,
                        connection,
                        request,
                        failure,
                        result,
                    )
                    &&& actions_after == actions
                },
                OutboundState::EstablishedAwaitingDelivery { request, connection } =>
                established_failed(
                    before,
                    after,
                    actions,
                    actions_after,
                    token,
                    connection.token,
                    failed_state(requests, request, connection),
                    failure,
                    result,
                ),
                OutboundState::DisconnectedAwaitingDelivery { request, connection } =>
                established_failed(
                    before,
                    after,
                    actions,
                    actions_after,
                    token,
                    connection.token,
                    failed_state(requests, request, connection),
                    failure,
                    result,
                ),
                OutboundState::Disconnected { connection } => established_failed(
                    before,
                    after,
                    actions,
                    actions_after,
                    token,
                    connection.token,
                    OutboundState::Failed { connection },
                    failure,
                    result,
                ),
                OutboundState::Transitioning => {
                    &&& result matches Err(error) && error.is_invalid_config(
                        "CM route was re-entered while transitioning"@,
                    )
                    &&& after == before
                    &&& actions_after == actions
                },
                _ => {
                    &&& result == Ok::<OutboundStep, Error>(
                        OutboundStep::Done(EventDisposition::Rejected(CmEventReject::Duplicate)),
                    )
                    &&& after == before
                    &&& actions_after == actions
                },
            }
        }
    }
}

/// The state of an outbound route whose established connection failed.
pub open spec fn failed_state(
    requests: SlotsView<OutboundRequest>,
    request: RequestToken,
    connection: EstablishedConnectionRoute,
) -> OutboundState {
    if connect_delivered(requests, request) {
        OutboundState::Failed { connection }
    } else {
        OutboundState::FailedAwaitingDelivery { request, connection }
    }
}

fn after_failure(
    requests: &SlotRegistry<OutboundRequest>,
    request: RequestToken,
    connection: EstablishedConnectionRoute,
) -> (state: OutboundState)
    requires
        requests.wf(),
    ensures
        state == failed_state(requests@, request, connection),
{
    if is_connect_delivered(requests, request) {
        OutboundState::Failed { connection }
    } else {
        OutboundState::FailedAwaitingDelivery { request, connection }
    }
}

/// Takes in that an outbound route failed with `failure`.
fn apply_failure(
    cm: &mut CmState,
    connections: &mut ConnectionRegistry,
    requests: &mut SlotRegistry<OutboundRequest>,
    token: CmRouteToken,
    shutting_down: bool,
    failure: Error,
    actions: &mut ReactorActions,
) -> (result: Result<OutboundStep, Error>)
    requires
        old(cm).wf(),
        old(connections).wf(),
        old(requests).wf(),
    ensures
        final(cm).wf(),
        final(connections).wf(),
        final(requests).wf(),
        final(requests).spent() == old(requests).spent(),
        failure_handled(
            old(cm)@,
            final(cm)@,
            old(connections)@,
            final(connections)@,
            old(requests)@,
            final(requests)@,
            old(actions)@,
            final(actions)@,
            token,
            shutting_down,
            failure,
            result,
        ),
{
    match connections.outbound_route(token) {
        None => {
            return Ok(OutboundStep::Done(EventDisposition::Rejected(CmEventReject::Duplicate)));
        },
        Some(route) => match &route.state {
            OutboundState::AwaitEstablished { request, connection } => {
                let (request, connection): (RequestToken, ConnectionToken) = (
                    *request,
                    *connection,
                );
                let _ = connections.take_outbound_state(token);
                return fail_registered_connection(
                    connections,
                    token,
                    request,
                    connection,
                    failure,
                );
            },
            OutboundState::EstablishedAwaitingDelivery { request, connection }
            | OutboundState::DisconnectedAwaitingDelivery { request, connection } => {
                let connection: EstablishedConnectionRoute = *connection;
                let next = after_failure(requests, *request, connection);
                return fail_established(
                    connections,
                    token,
                    connection.token,
                    next,
                    failure,
                    actions,
                );
            },
            OutboundState::Disconnected { connection } => {
                let connection: EstablishedConnectionRoute = *connection;
                return fail_established(
                    connections,
                    token,
                    connection.token,
                    OutboundState::Failed { connection },
                    failure,
                    actions,
                );
            },
            OutboundState::Transitioning => {
                return Err(Error::invalid("CM route was re-entered while transitioning"));
            },
            OutboundState::FailedAwaitingDelivery { .. }
            | OutboundState::Failed { .. }
            | OutboundState::Closing { .. }
            | OutboundState::Quarantined { .. } => {
                return Ok(
                    OutboundStep::Done(EventDisposition::Rejected(CmEventReject::Duplicate)),
                );
            },
            OutboundState::AwaitAddr { .. } | OutboundState::AwaitRoute { .. } => {},
        },
    }
    match connections.take_outbound_state(token) {
        OutboundState::AwaitAddr { cm_id, request, reservation }
        | OutboundState::AwaitRoute { cm_id, request, reservation } => {
            let late: bool = is_connect_cancelled(requests, request) || shutting_down;
            let hold = SetupHold { token, cm_id, request, reservation };
            if late {
                abandon_setup(
                    cm,
                    connections,
                    requests,
                    hold,
                    true,
                    Error::DriverShutdown,
                    actions,
                );
                Ok(OutboundStep::Done(EventDisposition::IgnoredAfterShutdown))
            } else {
                abandon_setup(cm, connections, requests, hold, true, failure, actions);
                Ok(OutboundStep::Done(EventDisposition::Handled))
            }
        },
        _ => unreached(),
    }
}

/// Takes in the failure event of an outbound route.
pub fn handle_failure_event(
    cm: &mut CmState,
    connections: &mut ConnectionRegistry,
    requests: &mut SlotRegistry<OutboundRequest>,
    token: CmRouteToken,
    snapshot: CmEventSnapshot,
    shutting_down: bool,
    actions: &mut ReactorActions,
) -> (result: Result<OutboundStep, Error>)
    requires
        old(cm).wf(),
        old(connections).wf(),
        old(requests).wf(),
    ensures
        final(cm).wf(),
        final(connections).wf(),
        final(requests).wf(),
        final(requests).spent() == old(requests).spent(),
        exists|failure: Error|
            failure.is_verbs(IoErrorKind::Other, snapshot.failure_text(""@))
                && #[trigger] failure_handled(
                old(cm)@,
                final(cm)@,
                old(connections)@,
                final(connections)@,
                old(requests)@,
                final(requests)@,
                old(actions)@,
                final(actions)@,
                token,
                shutting_down,
                failure,
                result,
            ),
{
    let failure = Error::Verbs(IoError::other(snapshot.failure_message("")));
    apply_failure(cm, connections, requests, token, shutting_down, failure, actions)
}

/// Takes in an event of an outbound route.
///
/// A failure goes before anything else; any other event goes by its kind.
pub fn handle_event(
    cm: &mut CmState,
    connections: &mut ConnectionRegistry,
    requests: &mut SlotRegistry<OutboundRequest>,
    token: CmRouteToken,
    snapshot: CmEventSnapshot,
    shutting_down: bool,
    actions: &mut ReactorActions,
) -> (result: Result<OutboundStep, Error>)
    requires
        old(cm).wf(),
        old(connections).wf(),
        old(requests).wf(),
    ensures
        final(cm).wf(),
        final(connections).wf(),
        final(requests).wf(),
        final(requests).spent() == old(requests).spent(),
        snapshot.failed() ==> exists|failure: Error|
            failure.is_verbs(IoErrorKind::Other, snapshot.failure_text(""@))
                && #[trigger] failure_handled(
                old(cm)@,
                final(cm)@,
                old(connections)@,
                final(connections)@,
                old(requests)@,
                final(requests)@,
                old(actions)@,
                final(actions)@,
                token,
                shutting_down,
                failure,
                result,
            ),
        !snapshot.failed() && snapshot.event_type is AddrResolved ==> result is Ok && addr_resolved(
            old(cm)@,
            final(cm)@,
            old(connections)@,
            final(connections)@,
            old(requests)@,
            final(requests)@,
            old(actions)@,
            final(actions)@,
            token,
            shutting_down,
            result->Ok_0,
        ),
        !snapshot.failed() && snapshot.event_type is RouteResolved ==> result is Ok
            && route_resolved(
            old(cm)@,
            final(cm)@,
            old(connections)@,
            final(connections)@,
            old(requests)@,
            final(requests)@,
            old(actions)@,
            final(actions)@,
            token,
            shutting_down,
            result->Ok_0,
        ),
        !snapshot.failed() && snapshot.event_type is Established ==> {
            &&& final(cm)@ == old(cm)@
            &&& established(
                old(connections)@,
                final(connections)@,
                old(requests)@,
                final(requests)@,
                old(actions)@,
                final(actions)@,
                token,
                shutting_down,
                result,
            )
        },
        !snapshot.failed() && snapshot.event_type is Disconnected ==> {
            &&& final(cm)@ == old(cm)@
            &&& final(requests)@ == old(requests)@
            &&& exists|aborted: Error|
                aborted.is_verbs(
                    IoErrorKind::ConnectionAborted,
                    "peer disconnected before outbound establishment"@,
                ) && #[trigger] disconnected(
                    old(connections)@,
                    final(connections)@,
                    old(requests)@,
                    old(actions)@,
                    final(actions)@,
                    token,
                    aborted,
                    result,
                )
        },
        !snapshot.failed() && !(snapshot.event_type is AddrResolved
            || snapshot.event_type is RouteResolved || snapshot.event_type is Established
            || snapshot.event_type is Disconnected) ==> {
            &&& result == Ok::<OutboundStep, Error>(
                OutboundStep::Done(
                    if snapshot.event_type is TimewaitExit && old(connections)@.outbound(token)
                        && old(connections)@.outbound_route(token).state.disconnected() {
                        EventDisposition::Handled
                    } else {
                        EventDisposition::Rejected(CmEventReject::Unexpected)
                    },
                ),
            )
            &&& final(cm)@ == old(cm)@
            &&& final(connections)@ == old(connections)@
            &&& final(requests)@ == old(requests)@
            &&& final(actions)@ == old(actions)@
        },
        final(actions)@.len() <= old(actions)@.len() + STEP_PUBLICATIONS,
{
    if snapshot.is_failure() {
        return handle_failure_event(
            cm,
            connections,
            requests,
            token,
            snapshot,
            shutting_down,
            actions,
        );
    }
    match snapshot.event_type {
        CmEventType::AddrResolved => Ok(
            handle_addr_resolved(cm, connections, requests, token, shutting_down, actions),
        ),
        CmEventType::RouteResolved => Ok(
            handle_route_resolved(cm, connections, requests, token, shutting_down, actions),
        ),
        CmEventType::Established => handle_established(
            connections,
            requests,
            token,
            shutting_down,
            actions,
        ),
        CmEventType::Disconnected => handle_disconnected(connections, requests, token, actions),
        CmEventType::TimewaitExit => {
            if connections.outbound_is_disconnected(token) {
                Ok(OutboundStep::Done(EventDisposition::Handled))
            } else {
                Ok(OutboundStep::Done(EventDisposition::Rejected(CmEventReject::Unexpected)))
            }
        },
        _ => Ok(OutboundStep::Done(EventDisposition::Rejected(CmEventReject::Unexpected))),
    }
}

/// Ends an outbound event: outbound setup is over once its route failed, was
/// resolved, was established, or is not establishing any more.
pub fn outbound_event_finished(
    connections: &mut ConnectionRegistry,
    token: CmRouteToken,
    snapshot: CmEventSnapshot,
) -> (finished: bool)
    requires
        old(connections).wf(),
    ensures
        final(connections).wf(),
        finished == (snapshot.failed() || snapshot.event_type is RouteResolved
            || snapshot.event_type is Established || !old(connections)@.outbound(token) || !old(
            connections,
        )@.outbound_route(token).state.establishing()),
        final(connections)@ == if finished {
            RegistryView { setup_active: false, ..old(connections)@ }
        } else {
            old(connections)@
        },
{
    if snapshot.is_failure() || snapshot.event_type == CmEventType::RouteResolved
        || snapshot.event_type == CmEventType::Established
        || !connections.outbound_is_establishing(token) {
        connections.finish_outbound_setup();
        true
    } else {
        false
    }
}

/// What cancelling a connect reports and leaves.
pub open spec fn cancellation_processed(
    before: RegistryView,
    after: RegistryView,
    requests: SlotsView<OutboundRequest>,
    requests_after: SlotsView<OutboundRequest>,
    request: RequestToken,
    step: Option<ConnectionToken>,
) -> bool {
    let encoded = requests.entries[request].route_token;
    let token = SlotToken::decoded(encoded);
    let waiting = match before.outbound_route(token).state {
        OutboundState::EstablishedAwaitingDelivery { connection, .. } => Some(connection),
        OutboundState::DisconnectedAwaitingDelivery { connection, .. } => Some(connection),
        OutboundState::FailedAwaitingDelivery { connection, .. } => Some(connection),
        _ => None,
    };
    if !requests.entries.contains_key(request) || encoded == 0 || !before.outbound(token)
        || waiting is None {
        step is None && after == before && requests_after == requests
    } else {
        let connection = waiting->0.token;
        if before.connected(connection) {
            &&& step == Some(connection)
            &&& after == failing(before, token, connection)
            &&& requests_after == requests.set(
                request,
                OutboundRequest {
                    completion: requests.entries[request].completion.taken(),
                    ..requests.entries[request]
                },
            )
        } else {
            &&& step is None
            &&& after == ConnectionRegistry::route_released(
                state_taken(before, token),
                token,
                true,
            )
            &&& requests_after == requests
        }
    }
}

/// Cancels a connect whose connection nobody will take: the connection that comes
/// back is to be closed and retired.
pub fn process_cancellation(
    connections: &mut ConnectionRegistry,
    requests: &mut SlotRegistry<OutboundRequest>,
    request: RequestToken,
) -> (step: Option<ConnectionToken>)
    requires
        old(connections).wf(),
        old(requests).wf(),
    ensures
        final(connections).wf(),
        final(requests).wf(),
        final(requests).spent() == old(requests).spent(),
        cancellation_processed(
            old(connections)@,
            final(connections)@,
            old(requests)@,
            final(requests)@,
            request,
            step,
        ),
{
    let encoded: u64 = match requests.get(request) {
        Some(value) => value.route_token,
        None => {
            return None;
        },
    };
    if encoded == 0 {
        return None;
    }
    let token = SlotToken::decode(encoded);
    let connection: ConnectionToken = match connections.outbound_route(token) {
        Some(route) => match &route.state {
            OutboundState::EstablishedAwaitingDelivery { connection, .. }
            | OutboundState::DisconnectedAwaitingDelivery { connection, .. }
            | OutboundState::FailedAwaitingDelivery { connection, .. } => connection.token,
            _ => {
                return None;
            },
        },
        None => {
            return None;
        },
    };
    if connections.connection(connection).is_none() {
        let _ = connections.take_outbound_state(token);
        let _ = connections.release_route(token, true);
        return None;
    }
    close_failed_connect(connections, token, connection);
    if let Some(value) = requests.get_mut(request) {
        let _ = value.completion.take_result();
    }
    Some(connection)
}

} // verus!
