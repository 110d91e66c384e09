//! The creation, the events and the end of listeners.
//!
//! What only the provider can do comes back as a step; the caller performs it and
//! hands its result to the function that goes on.

use vstd::prelude::*;
use vstd::string::StringExecFns;

use crate::actions::{Action, ReactorActions, STEP_PUBLICATIONS};
use crate::cm::{contextual_cm_error, CmState};
use crate::cm::{is_contextual, CmView, ContextRoute};
use crate::connection::CmId;
use crate::error::{Error, IoError, IoErrorKind};
use crate::event::{CmEventReject, CmEventSnapshot, CmEventType, EventDisposition};
use crate::listener::{with_validated_listener_backlog, ListenerEntry, RdmaListenerConfig};
use crate::listener::{ListenerRegistry, ListenerView, ListenersView};
use crate::requests::ListenRequest;
use crate::slots::{SlotRegistry, SlotsView};
use crate::text::{append_decimal, owned};
use crate::text::decimal;
use crate::token::{ListenerToken, RequestToken, SlotToken};

verus! {

/// Whether a listen request that the table still holds was cancelled.
pub open spec fn listen_cancelled(requests: SlotsView<ListenRequest>, request: RequestToken) -> bool {
    requests.entries.contains_key(request) && requests.entries[request].completion.cancelled
}

pub fn is_listen_cancelled(requests: &SlotRegistry<ListenRequest>, request: RequestToken) -> (cancelled:
    bool)
    requires
        requests.wf(),
    ensures
        cancelled == listen_cancelled(requests@, request),
{
    match requests.get(request) {
        Some(value) => value.completion.cancelled,
        None => false,
    }
}

/// The table after `result` came in for one listen request.
pub open spec fn listen_completed(
    requests: SlotsView<ListenRequest>,
    request: RequestToken,
    result: Result<SlotToken, Error>,
) -> SlotsView<ListenRequest> {
    if requests.entries.contains_key(request) {
        requests.set(
            request,
            ListenRequest {
                completion: requests.entries[request].completion.completed(result),
                ..requests.entries[request]
            },
        )
    } else {
        requests
    }
}

/// The publications after a result came in for one listen request: its waiter is
/// woken for the first result.
pub open spec fn listen_woken(
    requests: SlotsView<ListenRequest>,
    request: RequestToken,
    actions: Seq<Action>,
) -> Seq<Action> {
    if requests.entries.contains_key(request)
        && requests.entries[request].completion.result is Pending {
        actions.push(Action::WakeListen { request })
    } else {
        actions
    }
}

/// Completes a listen request, if the table still holds it.
pub fn complete_listen(
    requests: &mut SlotRegistry<ListenRequest>,
    request: RequestToken,
    result: Result<SlotToken, Error>,
    actions: &mut ReactorActions,
)
    requires
        old(requests).wf(),
    ensures
        final(requests).wf(),
        final(requests)@ == listen_completed(old(requests)@, request, result),
        final(requests).spent() == old(requests).spent(),
        final(actions)@ == listen_woken(old(requests)@, request, old(actions)@),
{
    if let Some(value) = requests.get_mut(request) {
        if value.completion.complete(result) {
            actions.push(Action::WakeListen { request });
        }
    }
}

/// Whether a listen request failed with `error`.
pub open spec fn listen_failed(
    requests: SlotsView<ListenRequest>,
    requests_after: SlotsView<ListenRequest>,
    actions: Seq<Action>,
    actions_after: Seq<Action>,
    request: RequestToken,
    error: Error,
) -> bool {
    &&& requests_after == listen_completed(requests, request, Err(error))
    &&& actions_after == listen_woken(requests, request, actions)
}

fn fail_listen(
    requests: &mut SlotRegistry<ListenRequest>,
    request: RequestToken,
    error: Error,
    actions: &mut ReactorActions,
)
    requires
        old(requests).wf(),
    ensures
        final(requests).wf(),
        final(requests).spent() == old(requests).spent(),
        listen_failed(
            old(requests)@,
            final(requests)@,
            old(actions)@,
            final(actions)@,
            request,
            error,
        ),
{
    complete_listen(requests, request, Err(error), actions);
}

/// What the start of a listener does next.
pub enum ListenStep {
    /// Nothing more.
    Done,
    /// Create an identifier with the context token of the listener.
    CreateId,
    /// Listen on this identifier with this backlog.
    Listen { cm_id: CmId, backlog: i32 },
}

/// Starts a listener that a place was reserved for.
///
/// A request that was cancelled, or that comes during a shutdown, gives its place
/// back and fails.
pub fn start_listener(
    cm: &mut CmState,
    requests: &mut SlotRegistry<ListenRequest>,
    token: ListenerToken,
    request: RequestToken,
    shutting_down: bool,
    actions: &mut ReactorActions,
) -> (step: ListenStep)
    requires
        old(cm).wf(),
        old(requests).wf(),
    ensures
        final(cm).wf(),
        final(requests).wf(),
        final(requests).spent() == old(requests).spent(),
        if listen_cancelled(old(requests)@, request) || old(cm)@.shutting_down || shutting_down {
            &&& step == ListenStep::Done
            &&& final(cm)@ == old(cm)@.without_listener(token, false)
            &&& listen_failed(
                old(requests)@,
                final(requests)@,
                old(actions)@,
                final(actions)@,
                request,
                Error::DriverShutdown,
            )
        } else {
            &&& step == ListenStep::CreateId
            &&& final(cm)@ == old(cm)@
            &&& final(requests)@ == old(requests)@
            &&& final(actions)@ == old(actions)@
        },
        final(actions)@.len() <= old(actions)@.len() + STEP_PUBLICATIONS,
{
    if is_listen_cancelled(requests, request) || cm.shutting_down || shutting_down {
        let _ = cm.release_listener(token, false);
        fail_listen(requests, request, Error::DriverShutdown, actions);
        return ListenStep::Done;
    }
    ListenStep::CreateId
}

/// Goes on with the start of a listener once the provider was asked for an
/// identifier. The provider is never given a backlog that the configuration refuses.
pub fn listener_id_created(
    cm: &mut CmState,
    requests: &mut SlotRegistry<ListenRequest>,
    token: ListenerToken,
    request: RequestToken,
    created: Result<CmId, Error>,
    actions: &mut ReactorActions,
) -> (step: ListenStep)
    requires
        old(cm).wf(),
        old(requests).wf(),
        old(requests)@.entries.contains_key(request),
    ensures
        final(cm).wf(),
        final(requests).wf(),
        final(requests).spent() == old(requests).spent(),
        ({
            let asked = old(requests)@.entries[request];
            match created {
                Err(cause) => {
                    &&& step == ListenStep::Done
                    &&& final(cm)@ == old(cm)@.without_listener(token, false)
                    &&& exists|error: Error|
                        is_contextual("create listener "@ + asked.address@, cause, error)
                            && #[trigger] listen_failed(
                            old(requests)@,
                            final(requests)@,
                            old(actions)@,
                            final(actions)@,
                            request,
                            error,
                        )
                },
                Ok(cm_id) => if asked.config.valid() {
                    &&& step == ListenStep::Listen {
                        cm_id,
                        backlog: asked.config.capacity() as i32,
                    }
                    &&& final(cm)@ == old(cm)@
                    &&& final(requests)@ == old(requests)@
                    &&& final(actions)@ == old(actions)@
                } else {
                    &&& step == ListenStep::Done
                    &&& CmState::defers_listener(old(cm)@, final(cm)@, token, cm_id)
                    &&& exists|error: Error|
                        error.is_invalid_config(asked.config.refusal())
                            && #[trigger] listen_failed(
                            old(requests)@,
                            final(requests)@,
                            old(actions)@,
                            final(actions)@,
                            request,
                            error,
                        )
                },
            }
        }),
        final(actions)@.len() <= old(actions)@.len() + STEP_PUBLICATIONS,
{
    let (address, config): (String, RdmaListenerConfig) = match requests.get(request) {
        Some(value) => (value.address.clone(), value.config),
        None => (String::new(), RdmaListenerConfig::default()),
    };
    let cm_id = match created {
        Ok(cm_id) => cm_id,
        Err(cause) => {
            let _ = cm.release_listener(token, false);
            let mut context: String = owned("create listener ");
            context.append(address.as_str());
            let error = contextual_cm_error(context.as_str(), cause);
            fail_listen(requests, request, error, actions);
            return ListenStep::Done;
        },
    };
    let ask = |backlog: i32| -> (asked: i32)
        ensures
            asked == backlog,
        { backlog };
    match with_validated_listener_backlog(&config, ask) {
        Ok(backlog) => ListenStep::Listen { cm_id, backlog },
        Err(error) => {
            cm.defer_listener_cm_id(token, cm_id);
            fail_listen(requests, request, error, actions);
            ListenStep::Done
        },
    }
}

/// The words of a listen that the provider refused.
pub open spec fn listen_text(address: Seq<char>, backlog: nat) -> Seq<char> {
    "listen on "@ + address + " with backlog "@ + decimal(backlog)
}

/// Whether a reserved listener can take this identifier, and the context key is free.
pub open spec fn identity_free(cm: CmView, token: ListenerToken, cm_id: CmId) -> bool {
    !cm.routes.contains_key(cm_id.context_key) && ListenerRegistry::activable(
        cm.listeners,
        token,
        cm_id.raw_id,
    )
}

/// The listener once it listens on `local_addr`.
pub open spec fn listening(view: ListenerView, local_addr: String, cm_id: CmId) -> ListenerView {
    ListenerView {
        local_addr: Some(local_addr),
        cm_id: Some(cm_id),
        raw_id: cm_id.raw_id,
        context_key: cm_id.context_key,
        ..view
    }
}

/// Whether `after` is the state once a listener listens, and its close was begun
/// at once where its request had been cancelled.
pub open spec fn listener_activated(
    before: CmView,
    after: CmView,
    token: ListenerToken,
    local_addr: String,
    cm_id: CmId,
    cancelled: bool,
) -> bool {
    let active = listening(before.listeners.entry(token)@, local_addr, cm_id);
    let closes = cancelled && !active.closing;
    let queues = closes && !active.work_enqueued;
    &&& after.listeners.has(token)
    &&& after == (CmView {
        routes: before.routes.insert(
            cm_id.context_key,
            ContextRoute::Listener { token, raw_id: cm_id.raw_id },
        ),
        listener_work: if queues {
            before.listener_work.push(token)
        } else {
            before.listener_work
        },
        listeners: ListenersView {
            raw_ids: before.listeners.raw_ids.insert(cm_id.raw_id, token),
            ..before.listeners.set(token, after.listeners.entry(token))
        },
        ..before
    })
    &&& after.listeners.entry(token)@ == if closes {
        ListenerView { work_enqueued: true, ..ListenerEntry::close_requested(active) }
    } else {
        active
    }
}

/// Ends the start of a listener once the provider was asked to listen; it answers
/// with the local address, if there is one.
pub fn listen_replied(
    cm: &mut CmState,
    requests: &mut SlotRegistry<ListenRequest>,
    token: ListenerToken,
    request: RequestToken,
    cm_id: CmId,
    backlog: i32,
    reply: Result<Option<String>, Error>,
    actions: &mut ReactorActions,
)
    requires
        old(cm).wf(),
        old(requests).wf(),
        old(requests)@.entries.contains_key(request),
        backlog >= 0,
    ensures
        final(cm).wf(),
        final(requests).wf(),
        final(requests).spent() == old(requests).spent(),
        ({
            let address = old(requests)@.entries[request].address@;
            match reply {
                Err(cause) => {
                    &&& CmState::defers_listener(old(cm)@, final(cm)@, token, cm_id)
                    &&& exists|error: Error|
                        is_contextual(listen_text(address, backlog as nat), cause, error)
                            && #[trigger] listen_failed(
                            old(requests)@,
                            final(requests)@,
                            old(actions)@,
                            final(actions)@,
                            request,
                            error,
                        )
                },
                Ok(None) => {
                    &&& CmState::defers_listener(old(cm)@, final(cm)@, token, cm_id)
                    &&& exists|error: Error|
                        error.is_invalid_config(
                            "listener "@ + address + " has no local address after rdma_listen"@,
                        ) && #[trigger] listen_failed(
                            old(requests)@,
                            final(requests)@,
                            old(actions)@,
                            final(actions)@,
                            request,
                            error,
                        )
                },
                Ok(Some(local_addr)) => if !identity_free(old(cm)@, token, cm_id) {
                    &&& CmState::defers_listener(old(cm)@, final(cm)@, token, cm_id)
                    &&& exists|error: Error|
                        error.is_invalid_config("duplicate listener route identity"@)
                            && #[trigger] listen_failed(
                            old(requests)@,
                            final(requests)@,
                            old(actions)@,
                            final(actions)@,
                            request,
                            error,
                        )
                } else {
                    &&& listener_activated(
                        old(cm)@,
                        final(cm)@,
                        token,
                        local_addr,
                        cm_id,
                        listen_cancelled(old(requests)@, request),
                    )
                    &&& final(requests)@ == listen_completed(
                        old(requests)@,
                        request,
                        if listen_cancelled(old(requests)@, request) {
                            Err(Error::DriverShutdown)
                        } else {
                            Ok(token)
                        },
                    )
                    &&& final(actions)@ == listen_woken(old(requests)@, request, old(actions)@)
                },
            }
        }),
        final(actions)@.len() <= old(actions)@.len() + STEP_PUBLICATIONS,
{
    let address: String = match requests.get(request) {
        Some(value) => value.address.clone(),
        None => String::new(),
    };
    let local_addr = match reply {
        Err(cause) => {
            cm.defer_listener_cm_id(token, cm_id);
            let mut context: String = owned("listen on ");
            context.append(address.as_str());
            context.append(" with backlog ");
            append_decimal(&mut context, backlog as u64);
            let error = contextual_cm_error(context.as_str(), cause);
            fail_listen(requests, request, error, actions);
            return;
        },
        Ok(None) => {
            cm.defer_listener_cm_id(token, cm_id);
            let mut text: String = owned("listener ");
            text.append(address.as_str());
            text.append(" has no local address after rdma_listen");
            fail_listen(requests, request, Error::InvalidConfig(text), actions);
            return;
        },
        Ok(Some(local_addr)) => local_addr,
    };
    let raw_id: u64 = cm_id.raw_id;
    let context_key: u64 = cm_id.context_key;
    if let Err(cm_id) = cm.activate_listener_identity(
        token,
        local_addr,
        cm_id,
        raw_id,
        context_key,
    ) {
        cm.defer_listener_cm_id(token, cm_id);
        let error = Error::invalid("duplicate listener route identity");
        fail_listen(requests, request, error, actions);
        return;
    }
    if is_listen_cancelled(requests, request) {
        let first: bool = match cm.listeners.get_mut(token) {
            Some(entry) => entry.request_close(),
            None => false,
        };
        if first {
            cm.enqueue_listener_work(token);
        }
        complete_listen(requests, request, Err(Error::DriverShutdown), actions);
    } else {
        complete_listen(requests, request, Ok(token), actions);
    }
    assert(cm@.listeners.slots.entries =~= old(cm)@.listeners.slots.entries.insert(
        token,
        cm@.listeners.entry(token),
    ));
}

/// The address that messages name a listener by.
pub open spec fn listener_name(cm: CmView, listener: ListenerToken) -> Seq<char> {
    if cm.listeners.has(listener) {
        cm.listeners.entry(listener).shown_addr()@
    } else {
        "<stale listener>"@
    }
}

pub fn shown_listener(cm: &CmState, listener: ListenerToken) -> (name: String)
    requires
        cm.wf(),
    ensures
        name@ == listener_name(cm@, listener),
{
    match cm.listeners.get(listener) {
        Some(entry) => entry.display_addr(),
        None => owned("<stale listener>"),
    }
}

/// Whether `after` is the state once a listener failed with `error`; one that was
/// not closing is queued for work.
pub open spec fn listener_failed(
    before: CmView,
    after: CmView,
    listener: ListenerToken,
    error: Error,
) -> bool {
    if before.listeners.has(listener) {
        let view = before.listeners.entry(listener)@;
        let first = !view.closing;
        &&& after == (CmView {
            listeners: after.listeners,
            listener_work: if first && !view.work_enqueued {
                before.listener_work.push(listener)
            } else {
                before.listener_work
            },
            ..before
        })
        &&& before.listeners.becomes(
            after.listeners,
            listener,
            ListenerView {
                work_enqueued: view.work_enqueued || first,
                ..ListenerEntry::failed(view, error)
            },
        )
    } else {
        after == before
    }
}

/// Takes in an event of a listener.
///
/// Only failures concern a listener. The removal of the device fails the engine;
/// any other failure fails the listener.
pub fn handle_listener_event(
    cm: &mut CmState,
    listener: ListenerToken,
    snapshot: CmEventSnapshot,
) -> (result: Result<EventDisposition, Error>)
    requires
        old(cm).wf(),
    ensures
        final(cm).wf(),
        ({
            let text = snapshot.listener_text(listener_name(old(cm)@, listener));
            if !snapshot.failed() {
                &&& result == Ok::<EventDisposition, Error>(
                    EventDisposition::Rejected(CmEventReject::Unexpected),
                )
                &&& final(cm)@ == old(cm)@
            } else if snapshot.event_type is DeviceRemoval {
                &&& result matches Err(error) && error.is_verbs(IoErrorKind::NotConnected, text)
                &&& final(cm)@ == old(cm)@
            } else {
                &&& result == Ok::<EventDisposition, Error>(EventDisposition::Handled)
                &&& exists|error: Error|
                    error.is_verbs(IoErrorKind::Other, text) && #[trigger] listener_failed(
                        old(cm)@,
                        final(cm)@,
                        listener,
                        error,
                    )
            }
        }),
{
    if !snapshot.is_failure() {
        return Ok(EventDisposition::Rejected(CmEventReject::Unexpected));
    }
    let name: String = shown_listener(cm, listener);
    let message: String = snapshot.listener_message(name.as_str());
    if snapshot.event_type == CmEventType::DeviceRemoval {
        return Err(Error::Verbs(IoError::new(IoErrorKind::NotConnected, message)));
    }
    let error = Error::Verbs(IoError::other(message));
    let ghost cause = error;
    let first: bool = match cm.listeners.get_mut(listener) {
        Some(entry) => entry.fail(error),
        None => false,
    };
    if first {
        cm.enqueue_listener_work(listener);
    }
    proof {
        if old(cm)@.listeners.has(listener) {
            assert(cm@.listeners.slots.entries =~= old(cm)@.listeners.slots.entries.insert(
                listener,
                cm@.listeners.entry(listener),
            ));
        }
        assert(listener_failed(old(cm)@, cm@, listener, cause));
    }
    Ok(EventDisposition::Handled)
}

/// The context routes without the one that a listener owns.
pub open spec fn routes_without_listener(cm: CmView, listener: ListenerToken) -> Map<
    u64,
    ContextRoute,
> {
    let entry = cm.listeners.entry(listener);
    if entry.raw_id != 0 && entry.context_key != 0 && CmState::owns_route(
        cm.routes,
        entry.context_key,
        entry.raw_id,
        listener.encoded() as u64,
    ) {
        cm.routes.remove(entry.context_key)
    } else {
        cm.routes
    }
}

/// What ending a closed listener leaves.
pub open spec fn listener_finalized(before: CmView, after: CmView, listener: ListenerToken) -> bool {
    let view = before.listeners.entry(listener)@;
    let raw_ids = ListenerRegistry::unindexed(before.listeners, listener);
    if !before.listeners.has(listener) {
        after == before
    } else {
        match view.cm_id {
            Some(cm_id) => {
                &&& after == (CmView {
                    listeners: after.listeners,
                    destructions: before.destructions.push(
                        crate::cm::PendingCmDestruction::Listener { cm_id, listener },
                    ),
                    ..before
                })
                &&& (ListenersView { raw_ids, ..before.listeners }).becomes(
                    after.listeners,
                    listener,
                    ListenerView { cm_id: None, cm_destruction_pending: true, ..view },
                )
            },
            None => if view.cm_destruction_pending {
                after == (CmView { listeners: ListenersView { raw_ids, ..before.listeners }, ..before })
            } else {
                after == (CmView {
                    routes: routes_without_listener(before, listener),
                    ..before
                }).without_listener(listener, true)
            },
        }
    }
}

/// Ends a closed listener: the destruction of its identifier is queued, or, where it
/// never had one, the listener goes at once.
pub fn finalize_listener(cm: &mut CmState, listener: ListenerToken)
    requires
        old(cm).wf(),
    ensures
        final(cm).wf(),
        listener_finalized(old(cm)@, final(cm)@, listener),
{
    let (raw_id, context_key, pending): (u64, u64, bool) = match cm.listeners.get(listener) {
        Some(entry) => (entry.raw_id, entry.context_key, entry.cm_destruction_pending),
        None => {
            return;
        },
    };
    let had_id: bool = match cm.listeners.get(listener) {
        Some(entry) => entry.cm_id.is_some(),
        None => false,
    };
    if raw_id != 0 {
        let _ = cm.listeners.remove_identity(listener, raw_id);
    }
    if !had_id {
        if pending {
            return;
        }
        if raw_id != 0 && context_key != 0 {
            let _ = cm.remove_context_route_if_owned(
                context_key,
                raw_id,
                Some(listener.encode()),
            );
        }
        let _ = cm.release_listener(listener, true);
        return;
    }
    let ghost unindexed = cm@.listeners;
    let cm_id = match cm.listeners.get_mut(listener) {
        Some(entry) => entry.take_cm_id(),
        None => None,
    };
    if let Some(cm_id) = cm_id {
        cm.defer_listener_cm_id(listener, cm_id);
    }
    assert(cm@.listeners.slots.entries =~= unindexed.slots.entries.insert(
        listener,
        cm@.listeners.entry(listener),
    ));
}

} // verus!
