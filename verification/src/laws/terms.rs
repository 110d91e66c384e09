//! The words in which the laws speak of the tables.

use vstd::prelude::*;

use crate::cm::CmView;
use crate::error::Error;
use crate::listener::SelectedAccept;
use crate::registry::RegistryView;
use crate::requests::{AcceptRequest, OutboundRequest};
use crate::slots::SlotsView;
use crate::terminal::TakeOnceResult;
use crate::token::{ConnectionToken, ListenerToken, RequestToken, SlotToken};

verus! {

/// Every entry but that of `token` is as it was, and so are the queues, the index and
/// the semaphore.
pub open spec fn others_kept(
    before: RegistryView,
    after: RegistryView,
    token: ConnectionToken,
) -> bool {
    &&& after.slots.entries.remove(token) =~= before.slots.entries.remove(token)
    &&& after.slots.capacity == before.slots.capacity
    &&& after.qp_index == before.qp_index
    &&& after.deadlines == before.deadlines
    &&& after.pending_outbound == before.pending_outbound
    &&& after.cancellations == before.cancellations
    &&& after.retirements == before.retirements
    &&& after.setup_active == before.setup_active
    &&& after.admission == before.admission
}

/// The registry has no route under `token` any more.
pub open spec fn route_gone(view: RegistryView, token: ConnectionToken) -> bool {
    !view.slots.entries.contains_key(token) || view.slots.entries[token].route is Unrouted
}

/// The connect request got its answer, if it was held and none had come before; no
/// other request changed.
pub open spec fn connect_answered(
    before: SlotsView<OutboundRequest>,
    after: SlotsView<OutboundRequest>,
    request: RequestToken,
    answer: Result<SlotToken, Error>,
) -> bool {
    &&& after.entries.dom() =~= before.entries.dom()
    &&& after.entries.remove(request) =~= before.entries.remove(request)
    &&& before.entries.contains_key(request) ==> {
        let old_request = before.entries[request];
        let new_request = after.entries[request];
        &&& new_request.completion.result == if old_request.completion.result is Pending {
            TakeOnceResult::Ready(answer)
        } else {
            old_request.completion.result
        }
        &&& new_request.completion.cancelled == old_request.completion.cancelled
        &&& new_request.delivered == old_request.delivered
        &&& new_request.route_token == old_request.route_token
        &&& new_request.address == old_request.address
        &&& new_request.config == old_request.config
        &&& new_request.setup == old_request.setup
        &&& new_request.cancellation_enqueued == old_request.cancellation_enqueued
    }
}

/// The accept request got its answer, if it was held and none had come before; no
/// other request changed.
pub open spec fn accept_answered(
    before: SlotsView<AcceptRequest>,
    after: SlotsView<AcceptRequest>,
    request: RequestToken,
    answer: Result<ConnectionToken, Error>,
) -> bool {
    &&& after.entries.dom() =~= before.entries.dom()
    &&& after.entries.remove(request) =~= before.entries.remove(request)
    &&& before.entries.contains_key(request) ==> {
        let old_request = before.entries[request];
        let new_request = after.entries[request];
        &&& new_request.result == if old_request.result is Pending {
            TakeOnceResult::Ready(answer)
        } else {
            old_request.result
        }
        &&& new_request.token == old_request.token
        &&& new_request.intent == old_request.intent
        &&& new_request.cancelled == old_request.cancelled
        &&& new_request.delivered == old_request.delivered
        &&& new_request.route_token == old_request.route_token
        &&& new_request.permit == old_request.permit
    }
}

/// The accept request failed, though its success may have been waiting: only what was
/// taken, or had failed before, stays. No other request changed.
pub open spec fn accept_failed_over(
    before: SlotsView<AcceptRequest>,
    after: SlotsView<AcceptRequest>,
    request: RequestToken,
    error: Error,
) -> bool {
    &&& after.entries.dom() =~= before.entries.dom()
    &&& after.entries.remove(request) =~= before.entries.remove(request)
    &&& before.entries.contains_key(request) ==> {
        let old_request = before.entries[request];
        let new_request = after.entries[request];
        &&& new_request.result == if old_request.result is Pending
            || old_request.result matches TakeOnceResult::Ready(Ok(_)) {
            TakeOnceResult::Ready(Err(error))
        } else {
            old_request.result
        }
        &&& new_request.token == old_request.token
        &&& new_request.intent == old_request.intent
        &&& new_request.cancelled == old_request.cancelled
        &&& new_request.delivered == old_request.delivered
        &&& new_request.route_token == old_request.route_token
        &&& new_request.permit == old_request.permit
    }
}

/// Where the listener's pair is set up on `route`, the pair ends: the listener is looked
/// at again, and the pair's waiter gives its permit back.
pub open spec fn pair_ended(
    cm: CmView,
    cm_after: CmView,
    requests: SlotsView<AcceptRequest>,
    requests_after: SlotsView<AcceptRequest>,
    listener: ListenerToken,
    route: int,
) -> bool {
    cm.listeners.has(listener) ==> (cm.listeners.entry(listener)@.selected matches Some(
        SelectedAccept::Routed { request, route: current, .. },
    ) ==> (current == route ==> {
        &&& cm_after.listeners.has(listener)
        &&& !(cm_after.listeners.entry(listener)@.selected matches Some(
            SelectedAccept::Routed { .. },
        ))
        &&& cm_after.listeners.entry(listener)@.work_enqueued
        &&& requests.entries.contains_key(request) ==> {
            &&& requests_after.entries.contains_key(request)
            &&& requests_after.entries[request].permit is None
        }
    }))
}

} // verus!
