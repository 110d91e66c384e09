//! Inbound children: their admission at a listener, their setup once they are
//! paired with an accept, and their rejection.
//!
//! What only the provider can do comes back as a step; the caller performs it and
//! hands its result to the function that goes on.

use vstd::prelude::*;
use vstd::pervasive::unreached;
use vstd::string::StringExecFns;

use crate::actions::{Action, ReactorActions, STEP_PUBLICATIONS};
use crate::admission::{permit_source, ConnectionReservation};
use crate::cm::{contextual_cm_error, CmState};
use crate::cm::{is_contextual, CmView, ContextRoute};
use crate::config::RdmaConnectionConfig;
use crate::connection::{CmId, ConnectionPoster, ConnectionState, VerbsConnectionResources};
use crate::error::Error;
use crate::event::{CmEventReject, CmEventSnapshot, EventDisposition};
use crate::inbound::{accepted_closed, inbound_taken, route_cancelled};
use crate::inbound::{
    acknowledge_accept_delivery, awaits_delivery, cancel_inbound_route, close_accepted_connection,
};
use crate::install::{install_retained, setup_outcome};
use crate::install::{
    install_reserved_connection, retain_failed_install, run_setup_before_establish,
    FailedConnectionInstallResources, SetupSummary,
};
use crate::listen::{finalize_listener, shown_listener};
use crate::listen::{listener_finalized, listener_name};
use crate::listener::{accept_completed, accept_woken, without_permit, ListenerView};
use crate::listener::{
    complete_accept, IncomingChild, ListenerAction, ListenerEntry, SelectedAccept,
};
use crate::outbound::{attached, build_refusal, build_refused, built_poster, cm_deferred, BuiltQp};
use crate::registry::{ConnectionEntry, Lifecycle, RegistryView};
use crate::registry::ConnectionRegistry;
use crate::requests::accept_cancelled;
use crate::requests::{is_accept_cancelled, AcceptRequest, ConnectionSetup};
use crate::retirement::selection_released;
use crate::routes::{
    EstablishedConnectionRoute, InboundPeerState, InboundRejectReason, InboundRoute, InboundState,
    Route,
};
use crate::slots::{SlotRegistry, SlotsView};
use crate::text::owned;
use crate::token::{CmRouteToken, ConnectionToken, ListenerToken, RequestToken, SlotToken};

verus! {

/// The name of a reject reason.
pub open spec fn reject_name(reason: InboundRejectReason) -> Seq<char> {
    match reason {
        InboundRejectReason::BacklogFull => "BacklogFull"@,
        InboundRejectReason::ConnectionCapacity => "ConnectionCapacity"@,
        InboundRejectReason::AdmissionClosed => "AdmissionClosed"@,
        InboundRejectReason::ListenerClosed => "ListenerClosed"@,
        InboundRejectReason::ContextMismatch => "ContextMismatch"@,
        InboundRejectReason::SetupFailure => "SetupFailure"@,
    }
}

fn reject_label(reason: InboundRejectReason) -> (name: &'static str)
    ensures
        name@ == reject_name(reason),
{
    match reason {
        InboundRejectReason::BacklogFull => "BacklogFull",
        InboundRejectReason::ConnectionCapacity => "ConnectionCapacity",
        InboundRejectReason::AdmissionClosed => "AdmissionClosed",
        InboundRejectReason::ListenerClosed => "ListenerClosed",
        InboundRejectReason::ContextMismatch => "ContextMismatch",
        InboundRejectReason::SetupFailure => "SetupFailure",
    }
}

/// The words of a reject that the provider refused.
pub open spec fn reject_text(before: Seq<char>, reason: InboundRejectReason) -> Seq<char> {
    before + " ("@ + reject_name(reason) + ")"@
}

fn reject_failure(before: &str, reason: InboundRejectReason, cause: Error) -> (error: Error)
    ensures
        is_contextual(reject_text(before@, reason), cause, error),
{
    let mut context: String = owned(before);
    context.append(" (");
    context.append(reject_label(reason));
    context.append(")");
    assert(context@ =~= reject_text(before@, reason));
    contextual_cm_error(context.as_str(), cause)
}

/// Takes in the provider's answer to the reject of a child that has no route yet.
///
/// A child that could not be rejected is kept out of ordinary destruction: what its
/// peer was told is uncertain.
pub fn unreserved_child_rejected(
    cm: &mut CmState,
    cm_id: CmId,
    reason: InboundRejectReason,
    reply: Result<(), Error>,
) -> (result: Result<(), Error>)
    requires
        old(cm).wf(),
    ensures
        final(cm).wf(),
        match reply {
            Ok(()) => result is Ok && final(cm)@ == cm_deferred(old(cm)@, cm_id),
            Err(cause) => {
                &&& result matches Err(error) && is_contextual(
                    reject_text("reject inbound child"@, reason),
                    cause,
                    error,
                )
                &&& final(cm)@ == (CmView {
                    quarantined: old(cm)@.quarantined.push(cm_id),
                    ..old(cm)@
                })
            },
        },
{
    match reply {
        Ok(()) => {
            cm.defer_cm_id(cm_id);
            Ok(())
        },
        Err(cause) => {
            cm.quarantine_cm_id(cm_id);
            Err(reject_failure("reject inbound child", reason, cause))
        },
    }
}

/// What a child owns that waits to be paired.
pub open spec fn pending_child(view: RegistryView, token: CmRouteToken) -> Option<
    (CmId, ConnectionReservation),
> {
    match view.inbound_route(token).state {
        InboundState::PendingSelection { cm_id, reservation } if view.inbound(token) => Some(
            (cm_id, reservation),
        ),
        _ => None,
    }
}

/// The registry with the state of a child that waits to be paired taken out.
pub open spec fn child_taken(view: RegistryView, token: CmRouteToken) -> RegistryView {
    if pending_child(view, token) is Some {
        inbound_taken(view, token)
    } else {
        view
    }
}

/// Takes out what a child owns that waits to be paired.
pub fn take_pending_child(connections: &mut ConnectionRegistry, token: CmRouteToken) -> (held:
    Option<(CmId, ConnectionReservation)>)
    requires
        old(connections).wf(),
    ensures
        final(connections).wf(),
        held == pending_child(old(connections)@, token),
        final(connections)@ == child_taken(old(connections)@, token),
{
    let waiting: bool = match connections.inbound_route(token) {
        Some(route) => match &route.state {
            InboundState::PendingSelection { .. } => true,
            _ => false,
        },
        None => false,
    };
    if !waiting {
        return None;
    }
    match connections.take_inbound_state(token) {
        InboundState::PendingSelection { cm_id, reservation } => Some((cm_id, reservation)),
        _ => unreached(),
    }
}

/// What the reject of a child reports and leaves, its state being out. A child that
/// could not be rejected stays with its route, in quarantine.
pub open spec fn child_rejected(
    cm: CmView,
    cm_after: CmView,
    before: RegistryView,
    after: RegistryView,
    token: CmRouteToken,
    held: Option<(CmId, ConnectionReservation)>,
    reason: InboundRejectReason,
    reply: Result<(), Error>,
    result: Result<(), Error>,
) -> bool {
    match held {
        None => result is Ok && cm_after == cm && after == before,
        Some((cm_id, reservation)) => match reply {
            Ok(()) => {
                &&& result is Ok
                &&& cm_after == cm_deferred(cm, cm_id)
                &&& after == ConnectionRegistry::route_released(before, token, true)
            },
            Err(cause) => {
                let kept = before.set_inbound_state(
                    token,
                    InboundState::PendingSelection { cm_id, reservation },
                );
                &&& result matches Err(error) && is_contextual(
                    reject_text("reject inbound child"@, reason),
                    cause,
                    error,
                )
                &&& cm_after == cm
                &&& after == if ConnectionRegistry::bundle_open(kept, token) {
                    kept.set(token, kept.entry(token).bundle_quarantined())
                } else {
                    kept
                }
            },
        },
    }
}

/// Takes in the provider's answer to the reject of a child with a route. Without
/// anything held there was nothing to reject.
pub fn reject_child(
    cm: &mut CmState,
    connections: &mut ConnectionRegistry,
    token: CmRouteToken,
    held: Option<(CmId, ConnectionReservation)>,
    reason: InboundRejectReason,
    reply: Result<(), Error>,
) -> (result: Result<(), Error>)
    requires
        old(cm).wf(),
        old(connections).wf(),
        held is Some ==> old(connections)@.inbound(token),
    ensures
        final(cm).wf(),
        final(connections).wf(),
        child_rejected(
            old(cm)@,
            final(cm)@,
            old(connections)@,
            final(connections)@,
            token,
            held,
            reason,
            reply,
            result,
        ),
{
    let (cm_id, reservation) = match held {
        Some((cm_id, reservation)) => (cm_id, reservation),
        None => {
            return Ok(());
        },
    };
    match reply {
        Ok(()) => {
            cm.defer_cm_id(cm_id);
            let _ = connections.release_route(token, true);
            Ok(())
        },
        Err(cause) => {
            let _ = connections.set_inbound_state(
                token,
                InboundState::PendingSelection { cm_id, reservation },
            );
            let _ = connections.track_bundle_quarantine(token);
            Err(reject_failure("reject inbound child", reason, cause))
        },
    }
}

/// What a connection request leads to.
pub enum ConnectRequestStep {
    /// Nothing more.
    Done(EventDisposition),
    /// Reject the child with this raw number.
    RejectRaw { raw_id: u64, reason: InboundRejectReason },
    /// Take the child with this raw number over and check its device.
    Adopt { raw_id: u64 },
    /// Reject a child that has no route yet.
    RejectId { cm_id: CmId, reason: InboundRejectReason },
    /// Reject a child that its listener did not take, then look for work.
    RejectChild { token: CmRouteToken, reason: InboundRejectReason },
    /// The engine fails with this error, keeping the child's identifier.
    Abandon { cm_id: CmId, error: Error },
}

/// Takes in a connection request at a listener.
pub fn handle_connect_request(
    cm: &CmState,
    listener: ListenerToken,
    snapshot: CmEventSnapshot,
) -> (step: ConnectRequestStep)
    requires
        cm.wf(),
    ensures
        ({
            let ended = !cm@.listeners.has(listener) || snapshot.status != 0
                || cm@.listeners.entry(listener)@.is_closing();
            step == if ended && snapshot.id != 0 {
                ConnectRequestStep::RejectRaw {
                    raw_id: snapshot.id,
                    reason: InboundRejectReason::ListenerClosed,
                }
            } else if ended {
                ConnectRequestStep::Done(EventDisposition::Handled)
            } else if snapshot.id == 0 {
                ConnectRequestStep::Done(EventDisposition::Rejected(CmEventReject::Unknown))
            } else {
                ConnectRequestStep::Adopt { raw_id: snapshot.id }
            }
        }),
{
    let ended: bool = match cm.listeners.get(listener) {
        Some(entry) => snapshot.status != 0 || entry.is_closing(),
        None => true,
    };
    if ended {
        if snapshot.id == 0 {
            return ConnectRequestStep::Done(EventDisposition::Handled);
        }
        return ConnectRequestStep::RejectRaw {
            raw_id: snapshot.id,
            reason: InboundRejectReason::ListenerClosed,
        };
    }
    if snapshot.id == 0 {
        return ConnectRequestStep::Done(EventDisposition::Rejected(CmEventReject::Unknown));
    }
    ConnectRequestStep::Adopt { raw_id: snapshot.id }
}

/// Reserves a place for a connection, unless admission is closed. Whether a place is
/// free depends on the other connections that share the admission.
pub fn reserve_connection(connections: &ConnectionRegistry, admission_error: Option<Error>) -> (reserved:
    Result<ConnectionReservation, Error>)
    ensures
        match admission_error {
            Some(error) => reserved == Err::<ConnectionReservation, Error>(error),
            None => reserved matches Err(error) ==> error == Error::CapacityExhausted,
        },
        reserved matches Ok(held) ==> held.is_fresh() && permit_source(held.permit)
            == connections@.admission,
{
    if let Some(error) = admission_error {
        return Err(error);
    }
    match connections.try_reserve() {
        Some(reservation) => Ok(reservation),
        None => Err(Error::CapacityExhausted),
    }
}

/// The reason for which a child without a reserved place is rejected.
pub open spec fn unreserved_reason(error: Error) -> InboundRejectReason {
    if error is CapacityExhausted {
        InboundRejectReason::ConnectionCapacity
    } else {
        InboundRejectReason::AdmissionClosed
    }
}

/// Why a listener does not take a child.
pub open spec fn child_refusal(cm: CmView, listener: ListenerToken) -> Option<InboundRejectReason> {
    if !cm.listeners.has(listener) || cm.listeners.entry(listener)@.is_closing() {
        Some(InboundRejectReason::ListenerClosed)
    } else if cm.listeners.entry(listener)@.child_slots_used >= cm.listeners.entry(
        listener,
    )@.backlog {
        Some(InboundRejectReason::BacklogFull)
    } else {
        None
    }
}

/// The listener with one more child, paired where a waiter is there.
pub open spec fn with_child(
    view: ListenerView,
    child: IncomingChild,
    requests: SlotsView<AcceptRequest>,
) -> ListenerView {
    (ListenerView {
        child_slots_used: (view.child_slots_used + 1) as usize,
        children: view.children.push(child),
        ..view
    }).paired(requests.entries)
}

/// Whether `after` is the state once a listener took a child and was queued for the
/// work that this made.
pub open spec fn child_admitted(
    before: CmView,
    after: CmView,
    listener: ListenerToken,
    child: IncomingChild,
    requests: SlotsView<AcceptRequest>,
) -> bool {
    let view = with_child(before.listeners.entry(listener)@, child, requests);
    let work = view.has_work(requests.entries);
    &&& after == (CmView {
        listeners: after.listeners,
        listener_work: if work && !view.work_enqueued {
            before.listener_work.push(listener)
        } else {
            before.listener_work
        },
        ..before
    })
    &&& before.listeners.becomes(
        after.listeners,
        listener,
        ListenerView { work_enqueued: view.work_enqueued || work, ..view },
    )
}

/// Whether `after` is the registry once an inbound child got its route.
pub open spec fn child_routed(
    before: RegistryView,
    after: RegistryView,
    token: CmRouteToken,
    listener: ListenerToken,
    cm_id: CmId,
    reservation: ConnectionReservation,
) -> bool {
    &&& before.slots.may_issue(token)
    &&& after == (RegistryView {
        slots: before.slots.added(
            token,
            ConnectionEntry {
                lifecycle: Lifecycle::Inbound,
                quarantine: None,
                route: Route::Inbound(
                    InboundRoute {
                        raw_id: 0,
                        context_key: 0,
                        listener,
                        state: InboundState::PendingSelection { cm_id, reservation },
                    },
                ),
                connection: None,
                setup: None,
            },
        ),
        ..before
    })
}

/// Admits a child for which a place was asked: it gets a route, and its listener
/// takes it unless it is ending or its backlog is full.
pub fn admit_reserved_child(
    cm: &mut CmState,
    connections: &mut ConnectionRegistry,
    requests: &SlotRegistry<AcceptRequest>,
    listener: ListenerToken,
    cm_id: CmId,
    reserved: Result<ConnectionReservation, Error>,
) -> (step: ConnectRequestStep)
    requires
        old(cm).wf(),
        old(connections).wf(),
        requests.wf(),
    ensures
        final(cm).wf(),
        final(connections).wf(),
        ({
            let before = old(connections)@;
            match reserved {
                Err(error) => {
                    &&& step == ConnectRequestStep::RejectId {
                        cm_id,
                        reason: unreserved_reason(error),
                    }
                    &&& final(cm)@ == old(cm)@
                    &&& final(connections)@ == before
                },
                Ok(reservation) => if before.slots.entries.dom().len() + before.spent
                    >= before.slots.capacity {
                    &&& step == ConnectRequestStep::Abandon {
                        cm_id,
                        error: Error::CapacityExhausted,
                    }
                    &&& final(cm)@ == old(cm)@
                    &&& final(connections)@ == before
                } else {
                    exists|token: CmRouteToken| #[trigger]
                        child_routed(
                            before,
                            final(connections)@,
                            token,
                            listener,
                            cm_id,
                            reservation,
                        ) && match child_refusal(old(cm)@, listener) {
                            Some(reason) => {
                                &&& step == ConnectRequestStep::RejectChild { token, reason }
                                &&& final(cm)@ == old(cm)@
                            },
                            None => {
                                &&& step == ConnectRequestStep::Done(EventDisposition::Handled)
                                &&& child_admitted(
                                    old(cm)@,
                                    final(cm)@,
                                    listener,
                                    IncomingChild { token },
                                    requests@,
                                )
                            },
                        }
                },
            }
        }),
{
    let reservation = match reserved {
        Ok(reservation) => reservation,
        Err(error) => {
            let reason = match error {
                Error::CapacityExhausted => InboundRejectReason::ConnectionCapacity,
                _ => InboundRejectReason::AdmissionClosed,
            };
            return ConnectRequestStep::RejectId { cm_id, reason };
        },
    };
    let mut route = InboundRoute::new(listener);
    route.state = InboundState::PendingSelection { cm_id, reservation };
    let token = match connections.register_inbound(route) {
        Ok(token) => token,
        Err(route) => {
            return match route.state {
                InboundState::PendingSelection { cm_id, .. } => ConnectRequestStep::Abandon {
                    cm_id,
                    error: Error::CapacityExhausted,
                },
                _ => unreached(),
            };
        },
    };
    assert(child_routed(
        old(connections)@,
        connections@,
        token,
        listener,
        cm_id,
        reservation,
    ));
    let refused: Option<InboundRejectReason> = match cm.listeners.get(listener) {
        None => Some(InboundRejectReason::ListenerClosed),
        Some(entry) => if entry.is_closing() {
            Some(InboundRejectReason::ListenerClosed)
        } else if entry.child_slots_used >= entry.backlog {
            Some(InboundRejectReason::BacklogFull)
        } else {
            None
        },
    };
    if let Some(reason) = refused {
        return ConnectRequestStep::RejectChild { token, reason };
    }
    if let Some(entry) = cm.listeners.get_mut(listener) {
        let _ = entry.admit_child(IncomingChild::new(token), requests);
    }
    let ghost admitted = cm@;
    look_for_work(cm, requests, listener);
    proof {
        assert(cm@.listeners.slots.entries =~= old(cm)@.listeners.slots.entries.insert(
            listener,
            cm@.listeners.entry(listener),
        ));
        assert(child_admitted(
            old(cm)@,
            cm@,
            listener,
            IncomingChild { token },
            requests@,
        ));
    }
    ConnectRequestStep::Done(EventDisposition::Handled)
}

/// Whether `after` is the state once a listener was queued if it has work.
pub open spec fn work_looked_for(
    before: CmView,
    after: CmView,
    requests: SlotsView<AcceptRequest>,
    listener: ListenerToken,
) -> bool {
    if before.listeners.has(listener) && before.listeners.entry(listener)@.has_work(
        requests.entries,
    ) {
        before.queues_work(after, listener)
    } else {
        after == before
    }
}

/// Queues a listener, if it has work.
pub fn look_for_work(
    cm: &mut CmState,
    requests: &SlotRegistry<AcceptRequest>,
    listener: ListenerToken,
)
    requires
        old(cm).wf(),
        requests.wf(),
    ensures
        final(cm).wf(),
        work_looked_for(old(cm)@, final(cm)@, requests@, listener),
{
    let work: bool = match cm.listeners.get(listener) {
        Some(entry) => entry.has_work(requests),
        None => false,
    };
    if work {
        cm.enqueue_listener_work(listener);
    }
}

/// Goes on with a connection request once its child was taken over.
pub fn connect_request_adopted(
    cm: &mut CmState,
    connections: &mut ConnectionRegistry,
    requests: &SlotRegistry<AcceptRequest>,
    listener: ListenerToken,
    cm_id: CmId,
    context: Result<(), Error>,
    admission_error: Option<Error>,
) -> (step: ConnectRequestStep)
    requires
        old(cm).wf(),
        old(connections).wf(),
        requests.wf(),
    ensures
        final(cm).wf(),
        final(connections).wf(),
        context is Err ==> step == (ConnectRequestStep::RejectId {
            cm_id,
            reason: InboundRejectReason::ContextMismatch,
        }),
        context is Ok ==> match admission_error {
            Some(error) => step == (ConnectRequestStep::RejectId {
                cm_id,
                reason: unreserved_reason(error),
            }),
            None => {
                ||| step == (ConnectRequestStep::RejectId {
                    cm_id,
                    reason: InboundRejectReason::ConnectionCapacity,
                })
                ||| step == (ConnectRequestStep::Abandon {
                    cm_id,
                    error: Error::CapacityExhausted,
                })
                ||| step == ConnectRequestStep::Done(EventDisposition::Handled)
                    && child_refusal(old(cm)@, listener) is None
                ||| step matches ConnectRequestStep::RejectChild { reason, .. } && child_refusal(
                    old(cm)@,
                    listener,
                ) == Some(reason)
            },
        },
        step is RejectId || step is Abandon ==> {
            &&& final(cm)@ == old(cm)@
            &&& final(connections)@ == old(connections)@
        },
        step is RejectChild ==> final(cm)@ == old(cm)@,
        step is Abandon ==> old(connections)@.slots.entries.dom().len() + old(connections)@.spent
            >= old(connections)@.slots.capacity,
        step is Done || step is RejectChild ==> old(connections)@.slots.entries.dom().len() + old(
            connections,
        )@.spent < old(connections)@.slots.capacity,
        step is Done || step is RejectChild ==> exists|
            token: CmRouteToken,
            reservation: ConnectionReservation,
        | #[trigger]
            child_routed(
                old(connections)@,
                final(connections)@,
                token,
                listener,
                cm_id,
                reservation,
            ) && reservation.is_fresh() && permit_source(reservation.permit) == old(
                connections,
            )@.admission && (step is Done ==> child_admitted(
                old(cm)@,
                final(cm)@,
                listener,
                IncomingChild { token },
                requests@,
            )) && (step matches ConnectRequestStep::RejectChild { token: named, .. } ==> named
                == token),
{
    if context.is_err() {
        return ConnectRequestStep::RejectId {
            cm_id,
            reason: InboundRejectReason::ContextMismatch,
        };
    }
    let reserved = reserve_connection(connections, admission_error);
    admit_reserved_child(cm, connections, requests, listener, cm_id, reserved)
}

/// What the setup of a selected child owns before its queue pair exists.
pub struct AcceptHold {
    pub token: CmRouteToken,
    pub listener: ListenerToken,
    pub request: RequestToken,
    pub cm_id: CmId,
    pub reservation: ConnectionReservation,
    pub config: RdmaConnectionConfig,
    pub setup: ConnectionSetup,
}

/// Why the setup of a selected child ended before it had a connection.
pub struct SelectedRejection {
    pub token: CmRouteToken,
    pub listener: ListenerToken,
    pub request: RequestToken,
    /// What the child still owns.
    pub held: Option<(CmId, ConnectionReservation)>,
    pub reason: InboundRejectReason,
    /// What its accept fails with.
    pub error: Error,
    /// Whether its listener knows its route already.
    pub routed: bool,
}

/// What the setup of a selected child does next.
pub enum SelectedStep {
    /// Nothing more.
    Done,
    /// Reject the child, if it still owns anything, and fail its accept.
    RejectChild(SelectedRejection),
    /// Put the route's context token on the child's identifier.
    InstallContextToken(AcceptHold),
    /// Build a queue pair on the child's identifier.
    BuildQp(AcceptHold),
    /// Reject the child of a failed installation on this identifier, if it has one.
    RejectInstall {
        token: CmRouteToken,
        listener: ListenerToken,
        request: RequestToken,
        error: Error,
        resources: FailedConnectionInstallResources,
        target: Result<u64, Error>,
    },
    /// Destroy the queue pair of a failed installation.
    DestroyInstall {
        token: CmRouteToken,
        listener: ListenerToken,
        request: RequestToken,
        error: Error,
        resources: FailedConnectionInstallResources,
    },
    /// Run the setup of a connection that had `accepted_before` accepted operations.
    RunSetup {
        token: CmRouteToken,
        listener: ListenerToken,
        request: RequestToken,
        setup: ConnectionSetup,
        accepted_before: usize,
    },
    /// Accept the peer on the identifier with this raw number.
    Accept { token: CmRouteToken, request: RequestToken, raw_id: u64 },
    /// Reject the peer of a connection whose setup failed with `error`, on this
    /// identifier, if it has one.
    RejectSelected {
        token: CmRouteToken,
        request: RequestToken,
        connection: ConnectionToken,
        reason: InboundRejectReason,
        error: Error,
        target: Result<u64, Error>,
    },
    /// Close and retire a connection.
    Teardown { connection: ConnectionToken },
}

/// Whether a listener takes no more setup.
pub open spec fn listener_ended(cm: CmView, listener: ListenerToken) -> bool {
    !cm.listeners.has(listener) || cm.listeners.entry(listener)@.is_closing()
}

/// The error that an ended listener gives its accepts.
pub open spec fn listener_error(cm: CmView, listener: ListenerToken) -> Error {
    if cm.listeners.has(listener) {
        cm.listeners.entry(listener)@.close_error()
    } else {
        Error::TransportClosed
    }
}

/// The rejection of a selected child whose accept, listener or engine is ending.
pub open spec fn ended_rejection(
    cm: CmView,
    view: RegistryView,
    requests: SlotsView<AcceptRequest>,
    listener: ListenerToken,
    request: RequestToken,
    token: CmRouteToken,
) -> SelectedRejection {
    SelectedRejection {
        token,
        listener,
        request,
        held: pending_child(view, token),
        reason: if listener_ended(cm, listener) || accept_cancelled(requests.entries, request) {
            InboundRejectReason::ListenerClosed
        } else {
            InboundRejectReason::AdmissionClosed
        },
        error: if listener_ended(cm, listener) {
            listener_error(cm, listener)
        } else {
            Error::DriverShutdown
        },
        routed: false,
    }
}

/// What beginning the setup of a selected pair reports and leaves.
pub open spec fn pair_begun(
    cm: CmView,
    before: RegistryView,
    after: RegistryView,
    requests: SlotsView<AcceptRequest>,
    requests_after: SlotsView<AcceptRequest>,
    listener: ListenerToken,
    request: RequestToken,
    token: CmRouteToken,
    shutting_down: bool,
    result: Result<SelectedStep, Error>,
) -> bool {
    let value = requests.entries[request];
    let taken = AcceptRequest { intent: None, ..value };
    if accept_cancelled(requests.entries, request) || listener_ended(cm, listener)
        || shutting_down {
        &&& result == Ok::<SelectedStep, Error>(
            SelectedStep::RejectChild(
                ended_rejection(cm, before, requests, listener, request, token),
            ),
        )
        &&& after == child_taken(before, token)
        &&& requests_after == requests
    } else {
        match value.intent {
            None => {
                &&& result matches Err(error) && error.is_invalid_config(
                    "selected accept intent was consumed more than once"@,
                )
                &&& after == before
                &&& requests_after == requests
            },
            Some(intent) => match intent.setup {
                None => {
                    &&& result matches Err(error) && error.is_invalid_config(
                        "accept setup was consumed more than once"@,
                    )
                    &&& after == before
                    &&& requests_after == requests.set(request, taken)
                },
                Some(setup) => match pending_child(before, token) {
                    None => {
                        &&& result matches Err(error) && error.is_invalid_config(
                            "selected inbound child lost its owning connection entry"@,
                        )
                        &&& after == before
                        &&& requests_after == requests.set(request, taken)
                    },
                    Some((cm_id, reservation)) => {
                        &&& result == Ok::<SelectedStep, Error>(
                            SelectedStep::InstallContextToken(
                                AcceptHold {
                                    token,
                                    listener,
                                    request,
                                    cm_id,
                                    reservation,
                                    config: intent.config,
                                    setup,
                                },
                            ),
                        )
                        &&& after == child_taken(before, token)
                        &&& requests_after == requests.set(
                            request,
                            AcceptRequest { route_token: token.encoded() as u64, ..taken },
                        )
                    },
                },
            },
        }
    }
}

/// Begins the setup of a selected pair.
///
/// An accept that was cancelled, a listener that is ending and a shutdown end it
/// before anything is built.
pub fn process_selected_pair(
    cm: &CmState,
    connections: &mut ConnectionRegistry,
    requests: &mut SlotRegistry<AcceptRequest>,
    listener: ListenerToken,
    request: RequestToken,
    child: IncomingChild,
    shutting_down: bool,
) -> (result: Result<SelectedStep, Error>)
    requires
        cm.wf(),
        old(connections).wf(),
        old(requests).wf(),
        old(requests)@.entries.contains_key(request),
    ensures
        final(connections).wf(),
        final(requests).wf(),
        final(requests).spent() == old(requests).spent(),
        pair_begun(
            cm@,
            old(connections)@,
            final(connections)@,
            old(requests)@,
            final(requests)@,
            listener,
            request,
            child.token,
            shutting_down,
            result,
        ),
{
    let token = child.into_token();
    let (ending, ending_error): (bool, Error) = match cm.listeners.get(listener) {
        Some(entry) => (entry.is_closing(), entry.close_error()),
        None => (true, Error::TransportClosed),
    };
    let cancelled: bool = is_accept_cancelled(requests, request);
    if cancelled || ending || shutting_down {
        let held = take_pending_child(connections, token);
        let error = if ending {
            ending_error
        } else {
            Error::DriverShutdown
        };
        let reason = if ending || cancelled {
            InboundRejectReason::ListenerClosed
        } else {
            InboundRejectReason::AdmissionClosed
        };
        return Ok(
            SelectedStep::RejectChild(
                SelectedRejection { token, listener, request, held, reason, error, routed: false },
            ),
        );
    }
    let ghost before = requests@;
    let intent = match requests.get_mut(request) {
        Some(value) => value.take_intent(),
        None => None,
    };
    let intent = match intent {
        Some(intent) => intent,
        None => {
            assert(requests@.entries =~= before.entries);
            return Err(Error::invalid("selected accept intent was consumed more than once"));
        },
    };
    let (config, setup): (RdmaConnectionConfig, ConnectionSetup) = match intent.into_parts() {
        Ok((config, setup)) => (config, setup),
        Err(error) => {
            return Err(error);
        },
    };
    let (cm_id, reservation) = match take_pending_child(connections, token) {
        Some((cm_id, reservation)) => (cm_id, reservation),
        None => {
            return Err(Error::invalid("selected inbound child lost its owning connection entry"));
        },
    };
    if let Some(value) = requests.get_mut(request) {
        value.route_token = token.encode();
    }
    assert(requests@.entries =~= before.entries.insert(request, requests@.entries[request]));
    Ok(
        SelectedStep::InstallContextToken(
            AcceptHold { token, listener, request, cm_id, reservation, config, setup },
        ),
    )
}

/// Whether a listener's selection ended, leaving the queue of work as it was.
pub open spec fn selection_dropped(
    cm: CmView,
    cm_after: CmView,
    requests: SlotsView<AcceptRequest>,
    requests_after: SlotsView<AcceptRequest>,
    listener: ListenerToken,
    ends: bool,
) -> bool {
    if ends {
        &&& cm_after == (CmView { listeners: cm_after.listeners, ..cm })
        &&& cm.listeners.becomes(
            cm_after.listeners,
            listener,
            cm.listeners.entry(listener)@.unselected(requests.entries),
        )
        &&& requests_after == without_permit(
            requests,
            cm.listeners.entry(listener).selected->0.waiter(),
        )
    } else {
        cm_after == cm && requests_after == requests
    }
}

/// Whether the selection of a listener is that of a request, or that on a route.
pub open spec fn selection_is(
    cm: CmView,
    listener: ListenerToken,
    request: RequestToken,
    route: u64,
    routed: bool,
) -> bool {
    cm.listeners.has(listener) && if routed {
        ListenerEntry::selects_route(cm.listeners.entry(listener)@, route)
    } else {
        cm.listeners.entry(listener).selected matches Some(selected) && selected.waiter()
            == request
    }
}

fn drop_selection(
    cm: &mut CmState,
    requests: &mut SlotRegistry<AcceptRequest>,
    listener: ListenerToken,
    request: RequestToken,
    route: u64,
    routed: bool,
)
    requires
        old(cm).wf(),
        old(requests).wf(),
    ensures
        final(cm).wf(),
        final(requests).wf(),
        final(requests).spent() == old(requests).spent(),
        selection_dropped(
            old(cm)@,
            final(cm)@,
            old(requests)@,
            final(requests)@,
            listener,
            selection_is(old(cm)@, listener, request, route, routed),
        ),
{
    let ends: bool = match cm.listeners.get(listener) {
        Some(entry) => if routed {
            entry.has_selected_route(route)
        } else {
            match &entry.selected {
                Some(selected) => selected.request() == request,
                None => false,
            }
        },
        None => false,
    };
    if ends {
        if let Some(entry) = cm.listeners.get_mut(listener) {
            if routed {
                let _ = entry.finish_selected_route(route, requests);
            } else {
                let _ = entry.finish_selected_request(request, requests);
            }
        }
    }
}

/// What the rejection of a selected child reports and leaves. A reject that the
/// provider refused leaves its accept alone.
pub open spec fn selected_child_gone(
    cm: CmView,
    cm_after: CmView,
    before: RegistryView,
    after: RegistryView,
    requests: SlotsView<AcceptRequest>,
    requests_after: SlotsView<AcceptRequest>,
    actions: Seq<Action>,
    actions_after: Seq<Action>,
    rejection: SelectedRejection,
    reply: Result<(), Error>,
    result: Result<(), Error>,
) -> bool {
    if rejection.held is Some && reply is Err {
        &&& child_rejected(
            cm,
            cm_after,
            before,
            after,
            rejection.token,
            rejection.held,
            rejection.reason,
            reply,
            result,
        )
        &&& requests_after == requests
        &&& actions_after == actions
    } else {
        let deferred = match rejection.held {
            Some((cm_id, _)) => cm_deferred(cm, cm_id),
            None => cm,
        };
        &&& result is Ok
        &&& after == if rejection.held is Some {
            ConnectionRegistry::route_released(before, rejection.token, true)
        } else {
            before
        }
        &&& actions_after == accept_woken(requests, rejection.request, actions)
        &&& selection_dropped(
            deferred,
            cm_after,
            accept_completed(requests, rejection.request, Err(rejection.error)),
            requests_after,
            rejection.listener,
            selection_is(
                deferred,
                rejection.listener,
                rejection.request,
                rejection.token.encoded() as u64,
                rejection.routed,
            ),
        )
    }
}

/// Ends the setup of a selected child once the provider answered its reject.
pub fn selected_child_rejected(
    cm: &mut CmState,
    connections: &mut ConnectionRegistry,
    requests: &mut SlotRegistry<AcceptRequest>,
    rejection: SelectedRejection,
    reply: Result<(), Error>,
    actions: &mut ReactorActions,
) -> (result: Result<(), Error>)
    requires
        old(cm).wf(),
        old(connections).wf(),
        old(requests).wf(),
        rejection.held is Some ==> old(connections)@.inbound(rejection.token),
    ensures
        final(cm).wf(),
        final(connections).wf(),
        final(requests).wf(),
        final(requests).spent() == old(requests).spent(),
        selected_child_gone(
            old(cm)@,
            final(cm)@,
            old(connections)@,
            final(connections)@,
            old(requests)@,
            final(requests)@,
            old(actions)@,
            final(actions)@,
            rejection,
            reply,
            result,
        ),
        final(actions)@.len() <= old(actions)@.len() + STEP_PUBLICATIONS,
{
    let SelectedRejection { token, listener, request, held, reason, error, routed } = rejection;
    let rejected = reject_child(cm, connections, token, held, reason, reply);
    if rejected.is_err() {
        return rejected;
    }
    complete_accept(requests, request, Err(error), actions);
    drop_selection(cm, requests, listener, request, token.encode(), routed);
    Ok(())
}

/// The rejection of a selected child whose setup failed.
pub open spec fn setup_rejection(hold: AcceptHold, cm_id: CmId, error: Error, routed: bool) -> SelectedRejection {
    SelectedRejection {
        token: hold.token,
        listener: hold.listener,
        request: hold.request,
        held: Some((cm_id, hold.reservation)),
        reason: InboundRejectReason::SetupFailure,
        error,
        routed,
    }
}

/// The identifier of a selected child with its context token in place.
pub open spec fn with_context(hold: AcceptHold, context_key: u64) -> CmId {
    CmId {
        raw_id: hold.cm_id.raw_id,
        context_key,
        context_token: Some(hold.token.encoded() as u64),
    }
}

/// The registry with the identity of an inbound route recorded.
pub open spec fn inbound_identified(
    view: RegistryView,
    token: CmRouteToken,
    cm_id: CmId,
) -> RegistryView {
    view.set_inbound(
        token,
        InboundRoute {
            raw_id: cm_id.raw_id,
            context_key: cm_id.context_key,
            ..view.inbound_route(token)
        },
    )
}

/// Whether `after` is the state once the route of a selected pair is known to its
/// listener, or was refused by it.
pub open spec fn pair_routed(
    before: CmView,
    after: CmView,
    hold: AcceptHold,
    cm_id: CmId,
    result: Result<SelectedStep, Error>,
) -> bool {
    let indexed = CmView {
        routes: before.routes.insert(
            cm_id.context_key,
            ContextRoute::Inbound { token: hold.token, raw_id: cm_id.raw_id },
        ),
        ..before
    };
    let view = before.listeners.entry(hold.listener)@;
    let processing = SelectedAccept::Processing { request: hold.request };
    if !before.listeners.has(hold.listener) {
        &&& result == Err::<SelectedStep, Error>(Error::TransportClosed)
        &&& after == indexed
    } else if view.selected == Some(processing) {
        &&& result == Ok::<SelectedStep, Error>(
            SelectedStep::BuildQp(AcceptHold { cm_id, ..hold }),
        )
        &&& after == (CmView { listeners: after.listeners, ..indexed })
        &&& before.listeners.becomes(
            after.listeners,
            hold.listener,
            ListenerView {
                selected: Some(
                    SelectedAccept::Routed {
                        request: hold.request,
                        route: hold.token.encoded() as u64,
                        cancel_started: false,
                    },
                ),
                ..view
            },
        )
    } else {
        &&& result matches Err(error) && error.is_invalid_config(
            if view.selected is Some {
                "listener selected pair changed during setup"@
            } else {
                "listener lost its selected pair during setup"@
            },
        )
        &&& after == (CmView { listeners: after.listeners, ..indexed })
        &&& before.listeners.becomes(after.listeners, hold.listener, view)
    }
}

/// Goes on with a selected child once its context token was to be installed; the
/// provider answers with its context key. From here on events find its route.
pub fn selected_context_installed(
    cm: &mut CmState,
    connections: &mut ConnectionRegistry,
    hold: AcceptHold,
    reply: Result<u64, Error>,
) -> (result: Result<SelectedStep, Error>)
    requires
        old(cm).wf(),
        old(connections).wf(),
        old(connections)@.inbound(hold.token),
        !old(connections)@.outbound(hold.token),
    ensures
        final(cm).wf(),
        final(connections).wf(),
        match reply {
            Err(error) => {
                &&& result == Ok::<SelectedStep, Error>(
                    SelectedStep::RejectChild(setup_rejection(hold, hold.cm_id, error, false)),
                )
                &&& final(cm)@ == old(cm)@
                &&& final(connections)@ == old(connections)@
            },
            Ok(context_key) => {
                let cm_id = with_context(hold, context_key);
                &&& final(connections)@ == inbound_identified(
                    old(connections)@,
                    hold.token,
                    cm_id,
                )
                &&& if old(cm)@.routes.contains_key(context_key) {
                    &&& result matches Ok(SelectedStep::RejectChild(rejection))
                        && rejection.error.is_invalid_config(
                        "duplicate inbound CM context identity"@,
                    ) && rejection == setup_rejection(hold, cm_id, rejection.error, false)
                    &&& final(cm)@ == old(cm)@
                } else {
                    pair_routed(old(cm)@, final(cm)@, hold, cm_id, result)
                }
            },
        },
{
    let AcceptHold { token, listener, request, cm_id, reservation, config, setup } = hold;
    let context_key: u64 = match reply {
        Ok(context_key) => context_key,
        Err(error) => {
            return Ok(
                SelectedStep::RejectChild(
                    SelectedRejection {
                        token,
                        listener,
                        request,
                        held: Some((cm_id, reservation)),
                        reason: InboundRejectReason::SetupFailure,
                        error,
                        routed: false,
                    },
                ),
            );
        },
    };
    let cm_id = CmId { raw_id: cm_id.raw_id, context_key, context_token: Some(token.encode()) };
    let raw_id: u64 = cm_id.raw_id;
    let _ = connections.set_route_identity(token, raw_id, context_key);
    if !cm.insert_context_route(context_key, ContextRoute::Inbound { token, raw_id }) {
        return Ok(
            SelectedStep::RejectChild(
                SelectedRejection {
                    token,
                    listener,
                    request,
                    held: Some((cm_id, reservation)),
                    reason: InboundRejectReason::SetupFailure,
                    error: Error::invalid("duplicate inbound CM context identity"),
                    routed: false,
                },
            ),
        );
    }
    let routed: Result<(), Error> = match cm.listeners.get_mut(listener) {
        Some(entry) => entry.route_selected(request, token.encode()),
        None => Err(Error::TransportClosed),
    };
    match routed {
        Ok(()) => Ok(
            SelectedStep::BuildQp(
                AcceptHold { token, listener, request, cm_id, reservation, config, setup },
            ),
        ),
        Err(error) => Err(error),
    }
}

/// Goes on with a selected child once a queue pair was asked for. A child whose
/// parameters cannot be stated fails before its setup.
pub fn selected_qp_built(
    cm: &mut CmState,
    connections: &mut ConnectionRegistry,
    requests: &SlotRegistry<AcceptRequest>,
    hold: AcceptHold,
    built: Result<BuiltQp, Error>,
) -> (step: SelectedStep)
    requires
        old(cm).wf(),
        old(connections).wf(),
        requests.wf(),
        old(connections)@.inbound(hold.token),
    ensures
        final(cm).wf(),
        final(connections).wf(),
        match built {
            Err(cause) => {
                &&& step matches SelectedStep::RejectChild(rejection) && is_contextual(
                    "build inbound QP for "@ + listener_name(old(cm)@, hold.listener),
                    cause,
                    rejection.error,
                ) && rejection == setup_rejection(hold, hold.cm_id, rejection.error, true)
                &&& final(cm)@ == (CmView {
                    routes: old(cm)@.routes_without(hold.cm_id),
                    ..old(cm)@
                })
                &&& final(connections)@ == old(connections)@
            },
            Ok(qp) => {
                let poster = built_poster(qp, hold.cm_id);
                &&& final(cm)@ == old(cm)@
                &&& if build_refused(old(connections)@, hold.token, qp, hold.config) {
                    &&& final(connections)@ == old(connections)@
                    &&& step matches SelectedStep::RejectInstall {
                        token,
                        listener,
                        request,
                        error,
                        resources,
                        target,
                    } && token == hold.token && listener == hold.listener && request
                        == hold.request && build_refusal(
                        old(connections)@,
                        hold.token,
                        qp,
                        hold.config,
                        error,
                    ) && resources.poster() == poster && resources.keeps(
                        hold.token,
                        hold.reservation,
                    ) && target == Ok::<u64, Error>(hold.cm_id.raw_id)
                } else {
                    &&& attached(
                        old(connections)@,
                        final(connections)@,
                        hold.token,
                        poster,
                        qp.local_addr,
                        qp.peer_addr,
                        hold.reservation,
                    )
                    &&& step == match qp.parameters_check {
                        Ok(()) => SelectedStep::RunSetup {
                            token: hold.token,
                            listener: hold.listener,
                            request: hold.request,
                            setup: hold.setup,
                            accepted_before: 0,
                        },
                        Err(error) => SelectedStep::RejectSelected {
                            token: hold.token,
                            request: hold.request,
                            connection: hold.token,
                            reason: setup_reject_reason(
                                error,
                                accept_cancelled(requests@.entries, hold.request),
                            ),
                            error,
                            target: Ok(hold.cm_id.raw_id),
                        },
                    }
                }
            },
        },
{
    let AcceptHold { token, listener, request, cm_id, reservation, config, setup } = hold;
    let raw_id: u64 = cm_id.raw_id;
    let qp = match built {
        Ok(qp) => qp,
        Err(cause) => {
            let mut context: String = owned("build inbound QP for ");
            let name: String = shown_listener(cm, listener);
            context.append(name.as_str());
            let error = contextual_cm_error(context.as_str(), cause);
            cm.remove_owned_context_route(&cm_id);
            return SelectedStep::RejectChild(
                SelectedRejection {
                    token,
                    listener,
                    request,
                    held: Some((cm_id, reservation)),
                    reason: InboundRejectReason::SetupFailure,
                    error,
                    routed: true,
                },
            );
        },
    };
    let poster = ConnectionPoster::Verbs(
        VerbsConnectionResources::new_shared(qp.qp_num, qp.capabilities, cm_id),
    );
    match install_reserved_connection(
        connections,
        Some(token),
        poster,
        &config,
        qp.config_check,
        qp.local_addr,
        qp.peer_addr,
        reservation,
    ) {
        Err(failure) => {
            let (error, resources) = failure.into_parts();
            let target = resources.reject_for_session();
            SelectedStep::RejectInstall { token, listener, request, error, resources, target }
        },
        Ok(_) => match qp.parameters_check {
            Ok(()) => SelectedStep::RunSetup {
                token,
                listener,
                request,
                setup,
                accepted_before: connections.accepted_count(token),
            },
            Err(error) => {
                let reason = reject_reason_for(&error, is_accept_cancelled(requests, request));
                SelectedStep::RejectSelected {
                    token,
                    request,
                    connection: token,
                    reason,
                    error,
                    target: Ok(raw_id),
                }
            },
        },
    }
}

/// The registry with an inbound route quarantined, where it is there.
pub open spec fn inbound_quarantined(
    view: RegistryView,
    token: CmRouteToken,
    connection: Option<EstablishedConnectionRoute>,
) -> RegistryView {
    if view.inbound(token) {
        view.set_inbound_state(token, InboundState::Quarantined { connection })
    } else {
        view
    }
}

/// Whether a listener failed with `error` and lost its selection on `route`.
pub open spec fn failed_and_dropped(
    cm: CmView,
    cm_after: CmView,
    requests: SlotsView<AcceptRequest>,
    requests_after: SlotsView<AcceptRequest>,
    listener: ListenerToken,
    route: u64,
    error: Error,
) -> bool {
    if cm.listeners.has(listener) {
        let failed = ListenerEntry::failed(cm.listeners.entry(listener)@, error);
        let ends = ListenerEntry::selects_route(failed, route);
        &&& cm_after == (CmView { listeners: cm_after.listeners, ..cm })
        &&& cm.listeners.becomes(
            cm_after.listeners,
            listener,
            if ends {
                failed.unselected(requests.entries)
            } else {
                failed
            },
        )
        &&& requests_after == if ends {
            without_permit(requests, failed.selected->0.waiter())
        } else {
            requests
        }
    } else {
        cm_after == cm && requests_after == requests
    }
}

fn fail_and_drop(
    cm: &mut CmState,
    requests: &mut SlotRegistry<AcceptRequest>,
    listener: ListenerToken,
    route: u64,
    error: Error,
) -> (dropped: bool)
    requires
        old(cm).wf(),
        old(requests).wf(),
    ensures
        final(cm).wf(),
        final(requests).wf(),
        final(requests).spent() == old(requests).spent(),
        dropped == (old(cm)@.listeners.has(listener) && ListenerEntry::selects_route(
            old(cm)@.listeners.entry(listener)@,
            route,
        )),
        failed_and_dropped(
            old(cm)@,
            final(cm)@,
            old(requests)@,
            final(requests)@,
            listener,
            route,
            error,
        ),
{
    match cm.listeners.get_mut(listener) {
        Some(entry) => {
            let _ = entry.fail(error);
            entry.finish_selected_route(route, requests)
        },
        None => false,
    }
}

/// Goes on with a failed installation of a selected child once the provider answered
/// its reject. One that could not be rejected is kept, and fails its listener.
pub fn failed_install_rejected(
    cm: &mut CmState,
    connections: &mut ConnectionRegistry,
    requests: &mut SlotRegistry<AcceptRequest>,
    token: CmRouteToken,
    listener: ListenerToken,
    request: RequestToken,
    error: Error,
    resources: FailedConnectionInstallResources,
    reply: Result<(), Error>,
    actions: &mut ReactorActions,
) -> (result: Result<SelectedStep, Error>)
    requires
        old(cm).wf(),
        old(connections).wf(),
        old(requests).wf(),
    ensures
        final(cm).wf(),
        final(connections).wf(),
        final(requests).wf(),
        final(requests).spent() == old(requests).spent(),
        match reply {
            Ok(()) => {
                &&& result == Ok::<SelectedStep, Error>(
                    SelectedStep::DestroyInstall { token, listener, request, error, resources },
                )
                &&& final(cm)@ == old(cm)@
                &&& final(connections)@ == old(connections)@
                &&& final(requests)@ == old(requests)@
                &&& final(actions)@ == old(actions)@
            },
            Err(cause) => {
                &&& result is Err
                &&& is_contextual(
                    "reject inbound child after failed connection installation"@,
                    cause,
                    result->Err_0,
                )
                &&& final(connections)@ == inbound_quarantined(
                    install_retained(old(connections)@, token, resources),
                    token,
                    None,
                )
                &&& final(actions)@ == accept_woken(old(requests)@, request, old(actions)@)
                &&& failed_and_dropped(
                    old(cm)@,
                    final(cm)@,
                    accept_completed(old(requests)@, request, Err(error)),
                    final(requests)@,
                    listener,
                    token.encoded() as u64,
                    result->Err_0,
                )
            },
        },
        final(actions)@.len() <= old(actions)@.len() + STEP_PUBLICATIONS,
{
    match reply {
        Ok(()) => Ok(SelectedStep::DestroyInstall { token, listener, request, error, resources }),
        Err(cause) => {
            let reject_error = contextual_cm_error(
                "reject inbound child after failed connection installation",
                cause,
            );
            retain_failed_install(connections, token, resources);
            let _ = connections.set_inbound_state(
                token,
                InboundState::Quarantined { connection: None },
            );
            complete_accept(requests, request, Err(error), actions);
            let _ = fail_and_drop(cm, requests, listener, token.encode(), reject_error.clone());
            Err(reject_error)
        },
    }
}

/// Ends a failed installation of a selected child once the provider answered the
/// destruction of its queue pair. What could not be destroyed stays with the route.
pub fn failed_install_destroyed(
    cm: &mut CmState,
    connections: &mut ConnectionRegistry,
    requests: &mut SlotRegistry<AcceptRequest>,
    token: CmRouteToken,
    listener: ListenerToken,
    request: RequestToken,
    error: Error,
    resources: FailedConnectionInstallResources,
    reply: Result<bool, Error>,
    actions: &mut ReactorActions,
)
    requires
        old(cm).wf(),
        old(connections).wf(),
        old(requests).wf(),
    ensures
        final(cm).wf(),
        final(connections).wf(),
        final(requests).wf(),
        final(requests).spent() == old(requests).spent(),
        final(actions)@ == accept_woken(old(requests)@, request, old(actions)@),
        ({
            let deferred = match resources.poster().cm_owner() {
                Some(cm_id) if resources.destroyed(reply) => cm_deferred(old(cm)@, cm_id),
                _ => old(cm)@,
            };
            &&& final(connections)@ == if resources.destroyed(reply) {
                ConnectionRegistry::route_released(old(connections)@, token, false)
            } else {
                inbound_quarantined(
                    install_retained(old(connections)@, token, resources.after_destroy(reply)),
                    token,
                    None,
                )
            }
            &&& selection_dropped(
                deferred,
                final(cm)@,
                accept_completed(old(requests)@, request, Err(error)),
                final(requests)@,
                listener,
                selection_is(deferred, listener, request, token.encoded() as u64, true),
            )
        }),
        final(actions)@.len() <= old(actions)@.len() + STEP_PUBLICATIONS,
{
    let mut resources = resources;
    match resources.destroy_for_session(reply) {
        Ok(cm_id) => {
            if let Some(cm_id) = cm_id {
                cm.defer_cm_id(cm_id);
            }
            let _ = connections.release_route(token, false);
        },
        Err(_) => {
            retain_failed_install(connections, token, resources);
            let _ = connections.set_inbound_state(
                token,
                InboundState::Quarantined { connection: None },
            );
        },
    }
    complete_accept(requests, request, Err(error), actions);
    drop_selection(cm, requests, listener, request, token.encode(), true);
}

/// The reason for which the peer of a failed setup is rejected.
pub open spec fn setup_reject_reason(error: Error, cancelled: bool) -> InboundRejectReason {
    match error {
        Error::DriverShutdown => if cancelled {
            InboundRejectReason::ListenerClosed
        } else {
            InboundRejectReason::AdmissionClosed
        },
        Error::TransportClosed => InboundRejectReason::ListenerClosed,
        _ => InboundRejectReason::SetupFailure,
    }
}

fn reject_reason_for(error: &Error, cancelled: bool) -> (reason: InboundRejectReason)
    ensures
        reason == setup_reject_reason(*error, cancelled),
{
    match error {
        Error::DriverShutdown => if cancelled {
            InboundRejectReason::ListenerClosed
        } else {
            InboundRejectReason::AdmissionClosed
        },
        Error::TransportClosed => InboundRejectReason::ListenerClosed,
        _ => InboundRejectReason::SetupFailure,
    }
}

/// What failing a selected child that has a connection reports and leaves.
pub open spec fn selected_failed(
    cm: CmView,
    cm_after: CmView,
    before: RegistryView,
    after: RegistryView,
    requests: SlotsView<AcceptRequest>,
    requests_after: SlotsView<AcceptRequest>,
    actions: Seq<Action>,
    actions_after: Seq<Action>,
    token: CmRouteToken,
    request: RequestToken,
    connection: ConnectionToken,
    error: Error,
    result: Result<SelectedStep, Error>,
) -> bool {
    if before.connected(connection) && before.connection(connection).inbound_accept_succeeded {
        exists|closed: Result<Option<ConnectionToken>, Error>| #[trigger]
            accepted_closed(
                cm,
                cm_after,
                before,
                after,
                requests,
                requests_after,
                actions,
                actions_after,
                token,
                request,
                connection,
                error,
                closed,
            ) && result == match closed {
                Ok(Some(ended)) => Ok(SelectedStep::Teardown { connection: ended }),
                Ok(None) => Ok(SelectedStep::Done),
                Err(lost) => Err(lost),
            }
    } else {
        &&& cm_after == cm
        &&& after == before
        &&& requests_after == requests
        &&& actions_after == actions
        &&& if before.connected(connection) {
            &&& result is Ok
            &&& result->Ok_0 matches SelectedStep::RejectSelected {
                token: route,
                request: waiting,
                connection: failed,
                reason,
                error: cause,
                target,
            } && route == token && waiting == request && failed == connection && cause == error
                && reason == setup_reject_reason(
                error,
                accept_cancelled(requests.entries, request),
            ) && match before.connection(connection).poster {
                ConnectionPoster::Synthetic { .. } => target matches Err(refused)
                    && refused.is_invalid_config(
                    "synthetic connection cannot reject an RDMA-CM child"@,
                ),
                ConnectionPoster::Verbs(resources) => match resources.cm_owner {
                    Some(cm_id) => target == Ok::<u64, Error>(cm_id.raw_id),
                    None => target == Err::<u64, Error>(Error::TransportClosed),
                },
            }
        } else {
            result matches Err(lost) && lost.is_invalid_config(
                "registered inbound connection disappeared during CM transition"@,
            )
        }
    }
}

/// Fails a selected child that has a connection: one whose peer was accepted is
/// closed, the peer of any other is rejected.
pub fn fail_selected_connection(
    cm: &mut CmState,
    connections: &mut ConnectionRegistry,
    requests: &mut SlotRegistry<AcceptRequest>,
    token: CmRouteToken,
    request: RequestToken,
    connection: ConnectionToken,
    error: Error,
    actions: &mut ReactorActions,
) -> (result: Result<SelectedStep, Error>)
    requires
        old(cm).wf(),
        old(connections).wf(),
        old(requests).wf(),
        old(connections)@.inbound(token),
    ensures
        final(cm).wf(),
        final(connections).wf(),
        final(requests).wf(),
        final(requests).spent() == old(requests).spent(),
        selected_failed(
            old(cm)@,
            final(cm)@,
            old(connections)@,
            final(connections)@,
            old(requests)@,
            final(requests)@,
            old(actions)@,
            final(actions)@,
            token,
            request,
            connection,
            error,
            result,
        ),
        final(actions)@.len() <= old(actions)@.len() + STEP_PUBLICATIONS,
{
    let target: Result<u64, Error> = match connections.connection(connection) {
        None => {
            return Err(
                Error::invalid("registered inbound connection disappeared during CM transition"),
            );
        },
        Some(state) => {
            if state.inbound_accept_succeeded {
                let closed = close_accepted_connection(
                    cm,
                    connections,
                    requests,
                    token,
                    request,
                    connection,
                    error,
                    actions,
                );
                assert(accepted_closed(
                    old(cm)@,
                    cm@,
                    old(connections)@,
                    connections@,
                    old(requests)@,
                    requests@,
                    old(actions)@,
                    actions@,
                    token,
                    request,
                    connection,
                    error,
                    closed,
                ));
                return match closed {
                    Ok(Some(ended)) => Ok(SelectedStep::Teardown { connection: ended }),
                    Ok(None) => Ok(SelectedStep::Done),
                    Err(lost) => Err(lost),
                };
            }
            state.poster.reject()
        },
    };
    let reason = reject_reason_for(&error, is_accept_cancelled(requests, request));
    Ok(SelectedStep::RejectSelected { token, request, connection, reason, error, target })
}

/// Whether `after` is the state once a listener failed with `error`, lost its
/// selection on `route` and was queued where it had one there.
pub open spec fn failed_and_queued(
    cm: CmView,
    cm_after: CmView,
    requests: SlotsView<AcceptRequest>,
    requests_after: SlotsView<AcceptRequest>,
    listener: ListenerToken,
    route: u64,
    error: Error,
) -> bool {
    let selects = cm.listeners.has(listener) && ListenerEntry::selects_route(
        cm.listeners.entry(listener)@,
        route,
    );
    if selects {
        let view = cm.listeners.entry(listener)@;
        let failed = ListenerEntry::failed(view, error);
        &&& cm_after == (CmView {
            listeners: cm_after.listeners,
            listener_work: if view.work_enqueued {
                cm.listener_work
            } else {
                cm.listener_work.push(listener)
            },
            ..cm
        })
        &&& cm.listeners.becomes(
            cm_after.listeners,
            listener,
            ListenerView { work_enqueued: true, ..failed.unselected(requests.entries) },
        )
        &&& requests_after == without_permit(requests, view.selected->0.waiter())
    } else {
        failed_and_dropped(cm, cm_after, requests, requests_after, listener, route, error)
    }
}

/// Goes on with a failed setup once the provider answered the reject of its peer. A
/// connection whose peer could not be rejected is kept, and fails its listener.
pub fn selected_rejected(
    cm: &mut CmState,
    connections: &mut ConnectionRegistry,
    requests: &mut SlotRegistry<AcceptRequest>,
    token: CmRouteToken,
    request: RequestToken,
    connection: ConnectionToken,
    reason: InboundRejectReason,
    error: Error,
    reply: Result<(), Error>,
    actions: &mut ReactorActions,
) -> (result: Result<SelectedStep, Error>)
    requires
        old(cm).wf(),
        old(connections).wf(),
        old(requests).wf(),
        old(connections)@.inbound(token),
    ensures
        final(cm).wf(),
        final(connections).wf(),
        final(requests).wf(),
        final(requests).spent() == old(requests).spent(),
        match reply {
            Ok(()) => {
                &&& result == Ok::<SelectedStep, Error>(SelectedStep::Teardown { connection })
                &&& final(connections)@ == old(connections)@.set_inbound_state(
                    token,
                    InboundState::Closing {
                        connection: EstablishedConnectionRoute { token: connection },
                        request: Some(request),
                        completion: Some(error),
                        selected: true,
                        peer: InboundPeerState::PreAccept { reject: None },
                    },
                )
                &&& final(cm)@ == old(cm)@
                &&& final(requests)@ == old(requests)@
                &&& final(actions)@ == old(actions)@
            },
            Err(cause) => {
                let quarantined = inbound_quarantined(
                    old(connections)@,
                    token,
                    Some(EstablishedConnectionRoute { token: connection }),
                );
                &&& result is Err
                &&& is_contextual(
                    reject_text("reject selected inbound child after setup failure"@, reason),
                    cause,
                    result->Err_0,
                )
                &&& ConnectionRegistry::quarantine_published(
                    quarantined,
                    final(connections)@,
                    connection,
                    result->Err_0,
                )
                &&& final(actions)@ == accept_woken(
                    old(requests)@,
                    request,
                    ConnectionRegistry::quarantine_actions(
                        quarantined,
                        final(connections)@,
                        connection,
                        old(actions)@,
                    ),
                )
                &&& failed_and_queued(
                    old(cm)@,
                    final(cm)@,
                    accept_completed(old(requests)@, request, Err(error)),
                    final(requests)@,
                    old(connections)@.inbound_route(token).listener,
                    token.encoded() as u64,
                    result->Err_0,
                )
            },
        },
        final(actions)@.len() <= old(actions)@.len() + STEP_PUBLICATIONS,
{
    match reply {
        Ok(()) => {
            let _ = connections.set_inbound_state(
                token,
                InboundState::Closing {
                    connection: EstablishedConnectionRoute::new(connection),
                    request: Some(request),
                    completion: Some(error),
                    selected: true,
                    peer: InboundPeerState::PreAccept { reject: None },
                },
            );
            Ok(SelectedStep::Teardown { connection })
        },
        Err(cause) => {
            let reject_error = reject_failure(
                "reject selected inbound child after setup failure",
                reason,
                cause,
            );
            let listener = connections.inbound_listener(token);
            let _ = connections.set_inbound_state(
                token,
                InboundState::Quarantined {
                    connection: Some(EstablishedConnectionRoute::new(connection)),
                },
            );
            let _ = connections.quarantine_and_publish(connection, &reject_error, actions);
            complete_accept(requests, request, Err(error), actions);
            if let Some(listener) = listener {
                let route: u64 = token.encode();
                if fail_and_drop(cm, requests, listener, route, reject_error.clone()) {
                    cm.enqueue_listener_work(listener);
                    assert(cm@.listeners.slots.entries
                        =~= old(cm)@.listeners.slots.entries.insert(
                        listener,
                        cm@.listeners.entry(listener),
                    ));
                }
            }
            Err(reject_error)
        },
    }
}

/// Whether a selected child may still be accepted.
pub open spec fn accept_gate(
    cm: CmView,
    requests: SlotsView<AcceptRequest>,
    listener: ListenerToken,
    request: RequestToken,
    shutting_down: bool,
) -> Result<(), Error> {
    if cm.listeners.has(listener) && cm.listeners.entry(listener)@.is_closing() {
        Err(cm.listeners.entry(listener)@.close_error())
    } else if accept_cancelled(requests.entries, request) || shutting_down {
        Err(Error::DriverShutdown)
    } else {
        Ok(())
    }
}

fn may_accept(
    cm: &CmState,
    requests: &SlotRegistry<AcceptRequest>,
    listener: ListenerToken,
    request: RequestToken,
    shutting_down: bool,
) -> (gate: Result<(), Error>)
    requires
        cm.wf(),
        requests.wf(),
    ensures
        gate == accept_gate(cm@, requests@, listener, request, shutting_down),
{
    if let Some(entry) = cm.listeners.get(listener) {
        if entry.is_closing() {
            return Err(entry.close_error());
        }
    }
    if is_accept_cancelled(requests, request) || shutting_down {
        Err(Error::DriverShutdown)
    } else {
        Ok(())
    }
}

/// Why an accept cannot be asked of the provider, or the identifier it goes out on.
pub open spec fn accept_target(view: RegistryView, token: CmRouteToken, target: Result<u64, Error>) -> bool {
    match view.connection(token).poster {
        ConnectionPoster::Synthetic { .. } => target matches Err(error) && error.is_invalid_config(
            "synthetic connection cannot initiate RDMA-CM accept"@,
        ),
        ConnectionPoster::Verbs(resources) => match resources.cm_owner {
            Some(cm_id) => target == Ok::<u64, Error>(cm_id.raw_id),
            None => target == Err::<u64, Error>(Error::TransportClosed),
        },
    }
}

/// Goes on with a selected child once its setup ran.
pub fn selected_setup_done(
    cm: &mut CmState,
    connections: &mut ConnectionRegistry,
    requests: &mut SlotRegistry<AcceptRequest>,
    token: CmRouteToken,
    listener: ListenerToken,
    request: RequestToken,
    accepted_before: usize,
    setup: Result<usize, Error>,
    shutting_down: bool,
    actions: &mut ReactorActions,
) -> (result: Result<SelectedStep, Error>)
    requires
        old(cm).wf(),
        old(connections).wf(),
        old(requests).wf(),
        old(connections)@.inbound(token),
        old(connections)@.connected(token),
    ensures
        final(cm).wf(),
        final(connections).wf(),
        final(requests).wf(),
        final(requests).spent() == old(requests).spent(),
        exists|outcome: Result<SetupSummary, Error>, target: Result<u64, Error>|
            #[trigger] setup_outcome(
                old(connections)@,
                token,
                accepted_before,
                setup,
                accept_gate(old(cm)@, old(requests)@, listener, request, shutting_down),
                outcome,
            ) && #[trigger] accept_target(old(connections)@, token, target) && match (
                outcome,
                target,
            ) {
                (Ok(_), Ok(raw_id)) => {
                    &&& result == Ok::<SelectedStep, Error>(
                        SelectedStep::Accept { token, request, raw_id },
                    )
                    &&& final(cm)@ == old(cm)@
                    &&& final(connections)@ == old(connections)@
                    &&& final(requests)@ == old(requests)@
                    &&& final(actions)@ == old(actions)@
                },
                (Err(error), _) => selected_failed(
                    old(cm)@,
                    final(cm)@,
                    old(connections)@,
                    final(connections)@,
                    old(requests)@,
                    final(requests)@,
                    old(actions)@,
                    final(actions)@,
                    token,
                    request,
                    token,
                    error,
                    result,
                ),
                (Ok(_), Err(error)) => selected_failed(
                    old(cm)@,
                    final(cm)@,
                    old(connections)@,
                    final(connections)@,
                    old(requests)@,
                    final(requests)@,
                    old(actions)@,
                    final(actions)@,
                    token,
                    request,
                    token,
                    error,
                    result,
                ),
            },
        final(actions)@.len() <= old(actions)@.len() + STEP_PUBLICATIONS,
{
    let gate = may_accept(cm, requests, listener, request, shutting_down);
    let outcome = run_setup_before_establish(connections, token, accepted_before, setup, gate);
    let target: Result<u64, Error> = match connections.connection(token) {
        Some(connection) => connection.poster.accept(),
        None => Err(Error::TransportClosed),
    };
    assert(setup_outcome(
        old(connections)@,
        token,
        accepted_before,
        setup,
        accept_gate(old(cm)@, old(requests)@, listener, request, shutting_down),
        outcome,
    ));
    assert(accept_target(old(connections)@, token, target));
    match outcome {
        Err(error) => fail_selected_connection(
            cm,
            connections,
            requests,
            token,
            request,
            token,
            error,
            actions,
        ),
        Ok(_) => match target {
            Ok(raw_id) => Ok(SelectedStep::Accept { token, request, raw_id }),
            Err(error) => fail_selected_connection(
                cm,
                connections,
                requests,
                token,
                request,
                token,
                error,
                actions,
            ),
        },
    }
}

/// Ends the setup of a selected child once the provider answered its accept.
pub fn selected_accept_replied(
    cm: &mut CmState,
    connections: &mut ConnectionRegistry,
    requests: &mut SlotRegistry<AcceptRequest>,
    token: CmRouteToken,
    request: RequestToken,
    reply: Result<(), Error>,
    actions: &mut ReactorActions,
) -> (result: Result<SelectedStep, Error>)
    requires
        old(cm).wf(),
        old(connections).wf(),
        old(requests).wf(),
        old(connections)@.inbound(token),
        old(connections)@.connected(token),
        !old(connections)@.connection(token).inbound_accept_succeeded,
    ensures
        final(cm).wf(),
        final(connections).wf(),
        final(requests).wf(),
        final(requests).spent() == old(requests).spent(),
        match reply {
            Ok(()) => {
                let accepted = old(connections)@.set_connection(
                    token,
                    ConnectionState {
                        inbound_accept_succeeded: true,
                        ..old(connections)@.connection(token)
                    },
                );
                &&& result == Ok::<SelectedStep, Error>(SelectedStep::Done)
                &&& final(cm)@ == old(cm)@
                &&& final(connections)@ == accepted.set_inbound_state(
                    token,
                    InboundState::AwaitEstablished { request, connection: token },
                )
                &&& final(requests)@ == old(requests)@
                &&& final(actions)@ == old(actions)@
            },
            Err(error) => selected_failed(
                old(cm)@,
                final(cm)@,
                old(connections)@,
                final(connections)@,
                old(requests)@,
                final(requests)@,
                old(actions)@,
                final(actions)@,
                token,
                request,
                token,
                error,
                result,
            ),
        },
        final(actions)@.len() <= old(actions)@.len() + STEP_PUBLICATIONS,
{
    let ghost before = connections@;
    let accepted: Result<(), Error> = match connections.connection_mut(token) {
        Some(connection) => connection.accept_inbound(reply),
        None => Err(Error::TransportClosed),
    };
    match accepted {
        Ok(()) => {
            let _ = connections.set_inbound_state(
                token,
                InboundState::AwaitEstablished { request, connection: token },
            );
            Ok(SelectedStep::Done)
        },
        Err(error) => {
            assert(connections@.slots.entries =~= before.slots.entries);
            fail_selected_connection(
                cm,
                connections,
                requests,
                token,
                request,
                token,
                error,
                actions,
            )
        },
    }
}

/// What a turn of a listener leads to.
pub enum ListenerStep {
    /// Nothing more.
    Done,
    /// Reject a child that was never paired, if it still owns anything.
    RejectChild {
        token: CmRouteToken,
        held: Option<(CmId, ConnectionReservation)>,
        reason: InboundRejectReason,
    },
    /// Reject the child of a selected pair, if it still owns anything, and fail its
    /// accept with `error`.
    RejectSelected {
        token: CmRouteToken,
        held: Option<(CmId, ConnectionReservation)>,
        request: RequestToken,
        error: Error,
    },
    /// Go on with the setup of the selected pair.
    Selected(SelectedStep),
    /// Close and retire a connection.
    Teardown { connection: ConnectionToken },
}

/// Whether `after` is the state once a listener decided on its next action.
pub open spec fn listener_stepped(
    before: CmView,
    after: CmView,
    requests: SlotsView<AcceptRequest>,
    listener: ListenerToken,
    action: ListenerAction,
) -> bool {
    if before.listeners.has(listener) {
        let (view, next) = before.listeners.entry(listener)@.next(requests.entries);
        &&& action == next
        &&& after == (CmView { listeners: after.listeners, ..before })
        &&& before.listeners.becomes(after.listeners, listener, view)
    } else {
        action == ListenerAction::Idle && after == before
    }
}

/// The accepts once a listener decided on its next action: a waiter that leaves the
/// queue gives its permit back.
pub open spec fn permits_left(requests: SlotsView<AcceptRequest>, action: ListenerAction) -> SlotsView<
    AcceptRequest,
> {
    match action {
        ListenerAction::CancelledBeforeSelection(request) => without_permit(requests, request),
        ListenerAction::FailUnselected(request) => without_permit(requests, request),
        _ => requests,
    }
}

/// The state with the close of a selected route marked as begun.
pub open spec fn route_closing(
    before: CmView,
    after: CmView,
    listener: ListenerToken,
    route: u64,
) -> bool {
    if before.listeners.has(listener) {
        let view = before.listeners.entry(listener)@;
        &&& after == (CmView { listeners: after.listeners, ..before })
        &&& before.listeners.becomes(
            after.listeners,
            listener,
            match view.selected {
                Some(SelectedAccept::Routed { request, route: current, .. }) if current == route =>
                ListenerView {
                    selected: Some(SelectedAccept::Routed { request, route, cancel_started: true }),
                    ..view
                },
                _ => view,
            },
        )
    } else {
        after == before
    }
}

/// The step that a cancelled route leads to.
pub open spec fn cancelled_step(closed: Result<Option<ConnectionToken>, Error>) -> Result<
    ListenerStep,
    Error,
> {
    match closed {
        Ok(Some(connection)) => Ok(ListenerStep::Teardown { connection }),
        Ok(None) => Ok(ListenerStep::Done),
        Err(error) => Err(error),
    }
}

/// Whether cancelling the route with this 64-bit form led to `result`.
pub open spec fn cancel_served(
    cm: CmView,
    cm_after: CmView,
    before: RegistryView,
    after: RegistryView,
    requests: SlotsView<AcceptRequest>,
    requests_after: SlotsView<AcceptRequest>,
    actions: Seq<Action>,
    actions_after: Seq<Action>,
    route: u64,
    result: Result<ListenerStep, Error>,
) -> bool {
    exists|closed: Result<Option<ConnectionToken>, Error>| #[trigger]
        route_cancelled(
            cm,
            cm_after,
            before,
            after,
            requests,
            requests_after,
            actions,
            actions_after,
            SlotToken::decoded(route),
            closed,
        ) && result == cancelled_step(closed)
}

/// Whether serving a listener's action led to `result`.
pub open spec fn action_served(
    cm: CmView,
    cm_after: CmView,
    before: RegistryView,
    after: RegistryView,
    requests: SlotsView<AcceptRequest>,
    requests_after: SlotsView<AcceptRequest>,
    actions: Seq<Action>,
    actions_after: Seq<Action>,
    listener: ListenerToken,
    action: ListenerAction,
    shutting_down: bool,
    has_resources: bool,
    result: Result<ListenerStep, Error>,
) -> bool {
    match action {
        ListenerAction::CancelledBeforeSelection(request) => {
            &&& result == Ok::<ListenerStep, Error>(ListenerStep::Done)
            &&& cm_after == cm && after == before
            &&& requests_after == accept_completed(requests, request, Err(Error::DriverShutdown))
            &&& actions_after == accept_woken(requests, request, actions)
        },
        ListenerAction::FailUnselected(request) => {
            &&& result == Ok::<ListenerStep, Error>(ListenerStep::Done)
            &&& cm_after == cm && after == before
            &&& requests_after == accept_completed(
                requests,
                request,
                Err(listener_error(cm, listener)),
            )
            &&& actions_after == accept_woken(requests, request, actions)
        },
        ListenerAction::RejectChild(child, reason) => {
            &&& result == Ok::<ListenerStep, Error>(
                ListenerStep::RejectChild {
                    token: child.token,
                    held: pending_child(before, child.token),
                    reason,
                },
            )
            &&& cm_after == cm && requests_after == requests && actions_after == actions
            &&& after == child_taken(before, child.token)
        },
        ListenerAction::RejectSelected { request, child, reason } => {
            &&& result == Ok::<ListenerStep, Error>(
                ListenerStep::RejectSelected {
                    token: child.token,
                    held: pending_child(before, child.token),
                    request,
                    error: reason,
                },
            )
            &&& cm_after == cm && requests_after == requests && actions_after == actions
            &&& after == child_taken(before, child.token)
        },
        ListenerAction::ProcessSelected { request, child } => {
            &&& cm_after == cm && actions_after == actions
            &&& if !has_resources {
                &&& result matches Err(error) && error.is_invalid_config(
                    "selected listener setup requires live engine resources"@,
                )
                &&& after == before && requests_after == requests
            } else if requests.entries.contains_key(request) {
                match result {
                    Ok(ListenerStep::Selected(step)) => pair_begun(
                        cm,
                        before,
                        after,
                        requests,
                        requests_after,
                        listener,
                        request,
                        child.token,
                        shutting_down,
                        Ok(step),
                    ),
                    Ok(_) => false,
                    Err(error) => pair_begun(
                        cm,
                        before,
                        after,
                        requests,
                        requests_after,
                        listener,
                        request,
                        child.token,
                        shutting_down,
                        Err(error),
                    ),
                }
            } else {
                &&& result matches Err(error) && error.is_invalid_config(
                    "selected accept intent was consumed more than once"@,
                )
                &&& after == before && requests_after == requests
            }
        },
        ListenerAction::CancelAfterAccept { route, .. } => cancel_served(
            cm,
            cm_after,
            before,
            after,
            requests,
            requests_after,
            actions,
            actions_after,
            route,
            result,
        ),
        ListenerAction::AcknowledgeDelivery { request, route } => if awaits_delivery(
            before,
            SlotToken::decoded(route),
            request,
        ) {
            &&& result == Ok::<ListenerStep, Error>(ListenerStep::Done)
            &&& after == before.set_inbound_state(
                SlotToken::decoded(route),
                InboundState::Established {
                    connection: EstablishedConnectionRoute {
                        token: before.inbound_route(
                            SlotToken::decoded(route),
                        ).state.referenced()->0,
                    },
                },
            )
            &&& CmState::ends_selection(cm, cm_after, listener, route, requests.entries)
            &&& requests_after == selection_released(cm, requests, listener, route)
            &&& actions_after == actions
        } else {
            exists|closing: CmView| #[trigger]
                route_closing(cm, closing, listener, route) && cancel_served(
                    closing,
                    cm_after,
                    before,
                    after,
                    requests,
                    requests_after,
                    actions,
                    actions_after,
                    route,
                    result,
                )
        },
        ListenerAction::FinalizeClose => {
            &&& result == Ok::<ListenerStep, Error>(ListenerStep::Done)
            &&& listener_finalized(cm, cm_after, listener)
            &&& after == before && requests_after == requests && actions_after == actions
        },
        ListenerAction::Idle => {
            &&& result == Ok::<ListenerStep, Error>(ListenerStep::Done)
            &&& cm_after == cm && after == before && requests_after == requests && actions_after
                == actions
        },
    }
}

fn cancel_route(
    cm: &mut CmState,
    connections: &mut ConnectionRegistry,
    requests: &mut SlotRegistry<AcceptRequest>,
    route: u64,
    actions: &mut ReactorActions,
) -> (result: Result<ListenerStep, Error>)
    requires
        old(cm).wf(),
        old(connections).wf(),
        old(requests).wf(),
    ensures
        final(cm).wf(),
        final(connections).wf(),
        final(requests).wf(),
        final(requests).spent() == old(requests).spent(),
        cancel_served(
            old(cm)@,
            final(cm)@,
            old(connections)@,
            final(connections)@,
            old(requests)@,
            final(requests)@,
            old(actions)@,
            final(actions)@,
            route,
            result,
        ),
{
    let token = SlotToken::decode(route);
    let closed = cancel_inbound_route(cm, connections, requests, token, actions);
    assert(route_cancelled(
        old(cm)@,
        cm@,
        old(connections)@,
        connections@,
        old(requests)@,
        requests@,
        old(actions)@,
        actions@,
        SlotToken::decoded(route),
        closed,
    ));
    match closed {
        Ok(Some(connection)) => Ok(ListenerStep::Teardown { connection }),
        Ok(None) => Ok(ListenerStep::Done),
        Err(error) => Err(error),
    }
}

fn serve_action(
    cm: &mut CmState,
    connections: &mut ConnectionRegistry,
    requests: &mut SlotRegistry<AcceptRequest>,
    listener: ListenerToken,
    action: ListenerAction,
    shutting_down: bool,
    has_resources: bool,
    actions: &mut ReactorActions,
) -> (result: Result<ListenerStep, Error>)
    requires
        old(cm).wf(),
        old(connections).wf(),
        old(requests).wf(),
    ensures
        final(cm).wf(),
        final(connections).wf(),
        final(requests).wf(),
        final(requests).spent() == old(requests).spent(),
        action_served(
            old(cm)@,
            final(cm)@,
            old(connections)@,
            final(connections)@,
            old(requests)@,
            final(requests)@,
            old(actions)@,
            final(actions)@,
            listener,
            action,
            shutting_down,
            has_resources,
            result,
        ),
{
    match action {
        ListenerAction::CancelledBeforeSelection(request) => {
            complete_accept(requests, request, Err(Error::DriverShutdown), actions);
            Ok(ListenerStep::Done)
        },
        ListenerAction::FailUnselected(request) => {
            let error = match cm.listeners.get(listener) {
                Some(entry) => entry.close_error(),
                None => Error::TransportClosed,
            };
            complete_accept(requests, request, Err(error), actions);
            Ok(ListenerStep::Done)
        },
        ListenerAction::RejectChild(child, reason) => {
            let token = child.into_token();
            let held = take_pending_child(connections, token);
            Ok(ListenerStep::RejectChild { token, held, reason })
        },
        ListenerAction::RejectSelected { request, child, reason } => {
            let token = child.into_token();
            let held = take_pending_child(connections, token);
            Ok(ListenerStep::RejectSelected { token, held, request, error: reason })
        },
        ListenerAction::ProcessSelected { request, child } => {
            if !has_resources {
                return Err(
                    Error::invalid("selected listener setup requires live engine resources"),
                );
            }
            if requests.get(request).is_none() {
                return Err(Error::invalid("selected accept intent was consumed more than once"));
            }
            match process_selected_pair(
                cm,
                connections,
                requests,
                listener,
                request,
                child,
                shutting_down,
            ) {
                Ok(step) => Ok(ListenerStep::Selected(step)),
                Err(error) => Err(error),
            }
        },
        ListenerAction::CancelAfterAccept { route, .. } => cancel_route(
            cm,
            connections,
            requests,
            route,
            actions,
        ),
        ListenerAction::AcknowledgeDelivery { request, route } => {
            let token = SlotToken::decode(route);
            if acknowledge_accept_delivery(cm, connections, requests, listener, request, token) {
                return Ok(ListenerStep::Done);
            }
            if let Some(entry) = cm.listeners.get_mut(listener) {
                let _ = entry.mark_selected_route_closing(route);
            }
            assert(route_closing(old(cm)@, cm@, listener, route));
            cancel_route(cm, connections, requests, route, actions)
        },
        ListenerAction::FinalizeClose => {
            finalize_listener(cm, listener);
            Ok(ListenerStep::Done)
        },
        ListenerAction::Idle => Ok(ListenerStep::Done),
    }
}

/// Serves one turn of a listener: its next action is decided and carried out as far
/// as no provider is needed.
pub fn service_listener(
    cm: &mut CmState,
    connections: &mut ConnectionRegistry,
    requests: &mut SlotRegistry<AcceptRequest>,
    listener: ListenerToken,
    shutting_down: bool,
    has_resources: bool,
    actions: &mut ReactorActions,
) -> (result: Result<ListenerStep, Error>)
    requires
        old(cm).wf(),
        old(connections).wf(),
        old(requests).wf(),
    ensures
        final(cm).wf(),
        final(connections).wf(),
        final(requests).wf(),
        final(requests).spent() == old(requests).spent(),
        exists|stepped: CmView, action: ListenerAction| #[trigger]
            listener_stepped(old(cm)@, stepped, old(requests)@, listener, action)
                && action_served(
                stepped,
                final(cm)@,
                old(connections)@,
                final(connections)@,
                permits_left(old(requests)@, action),
                final(requests)@,
                old(actions)@,
                final(actions)@,
                listener,
                action,
                shutting_down,
                has_resources,
                result,
            ),
        final(actions)@.len() <= old(actions)@.len() + STEP_PUBLICATIONS,
{
    let action = match cm.listeners.get_mut(listener) {
        Some(entry) => entry.next_action(requests),
        None => ListenerAction::Idle,
    };
    assert(listener_stepped(old(cm)@, cm@, old(requests)@, listener, action));
    assert(requests@ == permits_left(old(requests)@, action));
    serve_action(
        cm,
        connections,
        requests,
        listener,
        action,
        shutting_down,
        has_resources,
        actions,
    )
}

/// The state with the slot of a child given back.
pub open spec fn slot_released(before: CmView, after: CmView, listener: ListenerToken) -> bool {
    if before.listeners.has(listener) {
        let view = before.listeners.entry(listener)@;
        &&& after == (CmView { listeners: after.listeners, ..before })
        &&& before.listeners.becomes(
            after.listeners,
            listener,
            ListenerView {
                child_slots_used: if view.child_slots_used > 0 {
                    (view.child_slots_used - 1) as usize
                } else {
                    0
                },
                ..view
            },
        )
    } else {
        after == before
    }
}

/// Ends a child that was never paired once the provider answered its reject. Its
/// slot at the listener is free in any case.
pub fn unpaired_child_rejected(
    cm: &mut CmState,
    connections: &mut ConnectionRegistry,
    listener: ListenerToken,
    token: CmRouteToken,
    held: Option<(CmId, ConnectionReservation)>,
    reason: InboundRejectReason,
    reply: Result<(), Error>,
) -> (result: Result<(), Error>)
    requires
        old(cm).wf(),
        old(connections).wf(),
        held is Some ==> old(connections)@.inbound(token),
    ensures
        final(cm).wf(),
        final(connections).wf(),
        exists|rejected: CmView| #[trigger]
            child_rejected(
                old(cm)@,
                rejected,
                old(connections)@,
                final(connections)@,
                token,
                held,
                reason,
                reply,
                result,
            ) && slot_released(rejected, final(cm)@, listener),
{
    let result = reject_child(cm, connections, token, held, reason, reply);
    let ghost rejected = cm@;
    assert(child_rejected(
        old(cm)@,
        rejected,
        old(connections)@,
        connections@,
        token,
        held,
        reason,
        reply,
        result,
    ));
    if let Some(entry) = cm.listeners.get_mut(listener) {
        entry.release_unpaired_child_slot();
    }
    result
}

/// Ends a selected pair of a closing listener once the provider answered the reject
/// of its child. Its accept fails with `error` in any case.
pub fn closed_pair_rejected(
    cm: &mut CmState,
    connections: &mut ConnectionRegistry,
    requests: &mut SlotRegistry<AcceptRequest>,
    listener: ListenerToken,
    request: RequestToken,
    token: CmRouteToken,
    held: Option<(CmId, ConnectionReservation)>,
    error: Error,
    reply: Result<(), Error>,
    actions: &mut ReactorActions,
) -> (result: Result<(), Error>)
    requires
        old(cm).wf(),
        old(connections).wf(),
        old(requests).wf(),
        held is Some ==> old(connections)@.inbound(token),
    ensures
        final(cm).wf(),
        final(connections).wf(),
        final(requests).wf(),
        final(requests).spent() == old(requests).spent(),
        final(actions)@ == accept_woken(old(requests)@, request, old(actions)@),
        exists|rejected: CmView| #[trigger]
            child_rejected(
                old(cm)@,
                rejected,
                old(connections)@,
                final(connections)@,
                token,
                held,
                InboundRejectReason::ListenerClosed,
                reply,
                result,
            ) && selection_dropped(
                rejected,
                final(cm)@,
                accept_completed(old(requests)@, request, Err(error)),
                final(requests)@,
                listener,
                selection_is(rejected, listener, request, token.encoded() as u64, false),
            ),
        final(actions)@.len() <= old(actions)@.len() + STEP_PUBLICATIONS,
{
    let result = reject_child(
        cm,
        connections,
        token,
        held,
        InboundRejectReason::ListenerClosed,
        reply,
    );
    let ghost rejected = cm@;
    assert(child_rejected(
        old(cm)@,
        rejected,
        old(connections)@,
        connections@,
        token,
        held,
        InboundRejectReason::ListenerClosed,
        reply,
        result,
    ));
    complete_accept(requests, request, Err(error), actions);
    drop_selection(cm, requests, listener, request, token.encode(), false);
    result
}

} // verus!
