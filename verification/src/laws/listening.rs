//! What a listener owes to those who wait on it, and to the peers that ask it.

use vstd::prelude::*;

use crate::actions::Action;
use crate::cm::{CmState, CmView, ContextRoute, PendingCmDestruction};
use crate::connection::CmId;
use crate::error::Error;
use crate::listen::{
    identity_free, listen_cancelled, listen_failed, listener_activated, listener_failed,
    listener_finalized,
};
use crate::listener::{
    ListenerAction, ListenerEntry, ListenerRegistry, ListenerView, ListenersView, SelectedAccept,
    WaiterDrain,
};
use crate::requests::{AcceptRequest, ListenRequest};
use crate::routes::InboundRejectReason;
use crate::slots::SlotsView;
use crate::terminal::{MemoizedTerminalResult, TakeOnceResult};
use crate::token::{ListenerToken, RequestToken, SlotToken};

verus! {

/// Whether the accept of a held request was cancelled.
pub open spec fn withdrawn(requests: Map<SlotToken, AcceptRequest>, request: RequestToken) -> bool {
    requests.contains_key(request) && requests[request].cancelled
}

/// Whether the connection of a held request was handed out.
pub open spec fn handed_out(requests: Map<SlotToken, AcceptRequest>, request: RequestToken) -> bool {
    requests.contains_key(request) && requests[request].delivered
}

/// Whether a listener still takes waiters and children.
pub open spec fn takes_more(view: ListenerView) -> bool {
    !view.closing && view.admission.open
}

/// Wherever no pair is selected and a waiter that was not cancelled and a child stand
/// first, they become the pair; in every other case none does.
pub proof fn the_first_waiter_gets_the_first_child(
    view: ListenerView,
    requests: Map<SlotToken, AcceptRequest>,
)
    ensures
        view.selected is None && view.waiters.len() > 0 && view.children.len() > 0 && !withdrawn(
            requests,
            view.waiters[0],
        ) ==> {
            let after = view.paired(requests);
            &&& after.selected == Some(
                SelectedAccept::Ready { request: view.waiters[0], child: view.children[0] },
            )
            &&& after.waiters =~= view.waiters.skip(1)
            &&& after.children =~= view.children.skip(1)
            &&& after == (ListenerView {
                selected: after.selected,
                waiters: after.waiters,
                children: after.children,
                ..view
            })
        },
        view.selected is Some || view.waiters.len() == 0 || view.children.len() == 0 || withdrawn(
            requests,
            view.waiters[0],
        ) ==> view.paired(requests) == view,
{
}

/// A pair that is set up is done with when its connection was handed out, and else is
/// cancelled once, if its waiter gave up or the listener closes.
pub proof fn a_routed_pair_is_acknowledged_or_cancelled(
    view: ListenerView,
    requests: Map<SlotToken, AcceptRequest>,
    request: RequestToken,
    route: u64,
    cancel_started: bool,
)
    requires
        view.selected == Some(SelectedAccept::Routed { request, route, cancel_started }),
    ensures
        handed_out(requests, request) ==> view.next(requests) == (
            view,
            ListenerAction::AcknowledgeDelivery { request, route },
        ),
        !handed_out(requests, request) && (withdrawn(requests, request) || !takes_more(view))
            && !cancel_started ==> {
            &&& view.next(requests).1 == (ListenerAction::CancelAfterAccept { request, route })
            &&& view.next(requests).0 == (ListenerView {
                selected: Some(SelectedAccept::Routed { request, route, cancel_started: true }),
                ..view
            })
        },
        !handed_out(requests, request) && (withdrawn(requests, request) || !takes_more(view))
            && cancel_started ==> view.next(requests) == (view, ListenerAction::Idle),
        !handed_out(requests, request) && !withdrawn(requests, request) && takes_more(view) && (
        view.waiters.len() == 0 || !withdrawn(requests, view.waiters[0])) ==> view.next(requests)
            == (view, ListenerAction::Idle),
{
}

/// A waiter that gave up is answered first, in its turn, whether or not the listener
/// closes; the others keep their order.
pub proof fn a_withdrawn_waiter_is_answered(
    view: ListenerView,
    requests: Map<SlotToken, AcceptRequest>,
)
    requires
        !(view.selected matches Some(SelectedAccept::Routed { .. })),
        view.waiters.len() > 0,
        withdrawn(requests, view.waiters[0]),
    ensures
        view.next(requests).1 == ListenerAction::CancelledBeforeSelection(view.waiters[0]),
        view.next(requests).0 == (ListenerView {
            waiters: view.next(requests).0.waiters,
            ..view
        }),
        view.next(requests).0.waiters =~= view.waiters.skip(1),
{
}

/// A closing listener fails its waiters, then turns away its children, then the
/// selected pair, each in its turn, and then finishes, once.
pub proof fn a_closing_listener_empties(
    view: ListenerView,
    requests: Map<SlotToken, AcceptRequest>,
)
    requires
        !takes_more(view),
        !(view.selected matches Some(SelectedAccept::Routed { .. })),
        view.waiters.len() == 0 || !withdrawn(requests, view.waiters[0]),
    ensures
        view.waiters.len() > 0 ==> {
            &&& view.next(requests).1 == ListenerAction::FailUnselected(view.waiters[0])
            &&& view.next(requests).0.waiters =~= view.waiters.skip(1)
            &&& view.next(requests).0 == (ListenerView {
                waiters: view.next(requests).0.waiters,
                ..view
            })
        },
        view.waiters.len() == 0 && view.children.len() > 0 ==> {
            &&& view.next(requests).1 == ListenerAction::RejectChild(
                view.children[0],
                InboundRejectReason::ListenerClosed,
            )
            &&& view.next(requests).0.children =~= view.children.skip(1)
            &&& view.next(requests).0 == (ListenerView {
                children: view.next(requests).0.children,
                ..view
            })
        },
        view.waiters.len() == 0 && view.children.len() == 0 ==> match view.selected {
            Some(SelectedAccept::Ready { request, child }) => {
                &&& view.next(requests).1 == (ListenerAction::RejectSelected {
                    request,
                    child,
                    reason: match view.failure {
                        Some(error) => error,
                        None => Error::TransportClosed,
                    },
                })
                &&& view.next(requests).0.selected == Some(SelectedAccept::Processing { request })
            },
            Some(_) => view.next(requests) == (view, ListenerAction::Idle),
            None => if view.finalization_started {
                view.next(requests) == (view, ListenerAction::Idle)
            } else {
                &&& view.next(requests).1 == ListenerAction::FinalizeClose
                &&& view.next(requests).0.finalization_started
            },
        },
{
}

/// An open listener sets its pair up: the one that is ready, or the one that forms of
/// the first waiter and the first child.
pub proof fn an_open_listener_serves_its_pair(
    view: ListenerView,
    requests: Map<SlotToken, AcceptRequest>,
)
    requires
        takes_more(view),
        view.waiters.len() == 0 || !withdrawn(requests, view.waiters[0]),
    ensures
        view.selected matches Some(SelectedAccept::Ready { request, child }) ==> {
            &&& view.next(requests).1 == (ListenerAction::ProcessSelected { request, child })
            &&& view.next(requests).0 == (ListenerView {
                selected: Some(SelectedAccept::Processing { request }),
                ..view
            })
        },
        view.selected is None && view.waiters.len() > 0 && view.children.len() > 0 ==> {
            &&& view.next(requests).1 == (ListenerAction::ProcessSelected {
                request: view.waiters[0],
                child: view.children[0],
            })
            &&& view.next(requests).0.selected == Some(
                SelectedAccept::Processing { request: view.waiters[0] },
            )
            &&& view.next(requests).0.waiters =~= view.waiters.skip(1)
            &&& view.next(requests).0.children =~= view.children.skip(1)
        },
        view.selected is None && (view.waiters.len() == 0 || view.children.len() == 0)
            ==> view.next(requests) == (view, ListenerAction::Idle),
        view.selected matches Some(SelectedAccept::Processing { .. }) ==> view.next(requests) == (
            view,
            ListenerAction::Idle,
        ),
{
}

/// A listener is looked at again exactly where there is something to do for a waiter,
/// a child, the pair or its own end.
pub proof fn a_listener_knows_its_work(view: ListenerView, requests: Map<SlotToken, AcceptRequest>)
    ensures
        !takes_more(view) && (view.waiters.len() > 0 || view.children.len() > 0) ==> view.has_work(
            requests,
        ),
        !takes_more(view) && view.selected is None && !view.finalization_started ==> view.has_work(
            requests,
        ),
        view.selected matches Some(SelectedAccept::Ready { .. }) ==> view.has_work(requests),
        view.selected matches Some(SelectedAccept::Routed { request, cancel_started: false, .. })
            ==> (withdrawn(requests, request) || handed_out(requests, request) || !takes_more(view)
            ==> view.has_work(requests)),
        takes_more(view) && view.waiters.len() > 0 && withdrawn(requests, view.waiters[0])
            ==> view.has_work(requests),
        takes_more(view) && view.selected is None && view.waiters.len() > 0 && view.children.len()
            > 0 ==> view.has_work(requests),
        takes_more(view) && (view.waiters.len() == 0 || !withdrawn(requests, view.waiters[0])) ==> (
        match view.selected {
            None => view.waiters.len() == 0 || view.children.len() == 0 ==> !view.has_work(requests),
            Some(SelectedAccept::Ready { .. }) => view.has_work(requests),
            Some(SelectedAccept::Processing { .. }) => !view.has_work(requests),
            Some(SelectedAccept::Routed { request, .. }) => !withdrawn(requests, request)
                && !handed_out(requests, request) ==> !view.has_work(requests),
        }),
        !takes_more(view) && view.waiters.len() == 0 && view.children.len() == 0 ==> (
        match view.selected {
            None => view.finalization_started ==> !view.has_work(requests),
            Some(SelectedAccept::Processing { .. }) => !view.has_work(requests),
            Some(SelectedAccept::Routed { cancel_started, .. }) => cancel_started
                ==> !view.has_work(requests),
            Some(SelectedAccept::Ready { .. }) => true,
        }),
        view.is_closing() <==> !takes_more(view),
{
}

/// The end of a pair frees its slot and lets the next pair form.
pub proof fn the_next_pair_forms_when_one_ends(
    view: ListenerView,
    requests: Map<SlotToken, AcceptRequest>,
)
    ensures
        view.child_slots_used > 0 ==> view.unselected(requests).child_slots_used
            == view.child_slots_used - 1,
        view.child_slots_used == 0 ==> view.unselected(requests).child_slots_used == 0,
        view.waiters.len() > 0 && view.children.len() > 0 && !withdrawn(requests, view.waiters[0])
            ==> {
            &&& view.unselected(requests).selected == Some(
                SelectedAccept::Ready { request: view.waiters[0], child: view.children[0] },
            )
            &&& view.unselected(requests).waiters =~= view.waiters.skip(1)
            &&& view.unselected(requests).children =~= view.children.skip(1)
        },
        view.waiters.len() == 0 || view.children.len() == 0 || withdrawn(requests, view.waiters[0])
            ==> {
            &&& view.unselected(requests).selected is None
            &&& view.unselected(requests).waiters == view.waiters
            &&& view.unselected(requests).children == view.children
        },
        view.unselected(requests).closing == view.closing,
        view.unselected(requests).admission == view.admission,
        view.unselected(requests).failure == view.failure,
        view.unselected(requests).close == view.close,
{
}

/// A listener that closes takes nothing more; a failure is its reason, the first one,
/// and the reason that its accepts are refused with; its waiters, children and pair
/// stay until they are served.
pub proof fn a_failed_listener_says_why(view: ListenerView, error: Error)
    ensures
        ListenerEntry::close_requested(view).closing,
        !takes_more(ListenerEntry::close_requested(view)),
        view.closing ==> ListenerEntry::close_requested(view) == view,
        !view.closing ==> !ListenerEntry::close_requested(view).admission.open,
        ListenerEntry::close_requested(view).failure == view.failure,
        ListenerEntry::close_requested(view).waiters == view.waiters,
        ListenerEntry::close_requested(view).children == view.children,
        ListenerEntry::close_requested(view).selected == view.selected,
        ListenerEntry::close_requested(view).admission.close_reason == view.admission.close_reason,
        ListenerEntry::failed(view, error).closing,
        !ListenerEntry::failed(view, error).admission.open,
        view.failure is None ==> ListenerEntry::failed(view, error).failure == Some(error),
        view.failure is Some ==> ListenerEntry::failed(view, error).failure == view.failure,
        ListenerEntry::failed(view, error).close_error() == match view.failure {
            Some(earlier) => earlier,
            None => error,
        },
        view.admission.close_reason is None ==> ListenerEntry::failed(
            view,
            error,
        ).admission.refusal(view.close) == error,
        view.admission.close_reason is Some ==> ListenerEntry::failed(
            view,
            error,
        ).admission.close_reason == view.admission.close_reason,
        ListenerEntry::failed(view, error).waiters == view.waiters,
        ListenerEntry::failed(view, error).children == view.children,
        ListenerEntry::failed(view, error).selected == view.selected,
        ListenerEntry::failed(view, error).close == view.close,
        view.close_error() == match view.failure {
            Some(reason) => reason,
            None => Error::TransportClosed,
        },
        view.admission.refusal(view.close) == match view.admission.close_reason {
            Some(reason) => reason,
            None => match view.close.outcome {
                Some(MemoizedTerminalResult::Failed(reason)) => reason,
                _ => Error::TransportClosed,
            },
        },
{
}

/// The close of a listener ends well exactly if nothing failed; a failure of its
/// destruction counts before an earlier failure, and the first outcome stays.
pub proof fn a_listeners_close_has_one_outcome(
    view: ListenerView,
    error: Option<Error>,
    outcome: MemoizedTerminalResult,
    actions: Seq<Action>,
)
    ensures
        view.close.outcome is Some ==> ListenerEntry::close_finished(view, error).close.outcome
            == view.close.outcome,
        view.close.outcome is None && error is Some ==> ListenerEntry::close_finished(
            view,
            error,
        ).close.outcome == Some(MemoizedTerminalResult::Failed(error->0)),
        view.close.outcome is None && error is None && view.failure is Some
            ==> ListenerEntry::close_finished(view, error).close.outcome == Some(
            MemoizedTerminalResult::Failed(view.failure->0),
        ),
        view.close.outcome is None && error is None && view.failure is None
            ==> ListenerEntry::close_finished(view, error).close.outcome == Some(
            MemoizedTerminalResult::Success,
        ),
        !ListenerEntry::admission_closed(view).admission.open,
        ({
            let (after, told) = ListenerEntry::terminal_start(view, outcome, actions);
            &&& after.closing
            &&& !takes_more(after)
            &&& after.waiters == view.waiters
            &&& after.children == view.children
            &&& after.selected == view.selected
            &&& view.close.outcome is None ==> {
                &&& after.close.outcome == Some(outcome)
                &&& told =~= actions + seq![Action::WakeListener { listener: view.token }]
            }
            &&& view.close.outcome is Some ==> {
                &&& after.close.outcome == view.close.outcome
                &&& told == actions
            }
            &&& after.admission.close_reason is Some
            &&& view.admission.close_reason is None ==> after.admission.close_reason == Some(
                outcome->Failed_0,
            )
        }),
{
}

/// To drain the waiters of a listener is to answer every one of them with the error,
/// to give back their permits, and to leave none.
pub proof fn drained_waiters_are_answered(drain: WaiterDrain, error: Error)
    ensures
        drain.all_drained(error).waiters.len() == 0,
        drain.all_drained(error).requests.entries.dom() =~= drain.requests.entries.dom(),
        forall|i: int|
            #![trigger drain.waiters[i]]
            0 <= i < drain.waiters.len() && drain.requests.entries.contains_key(drain.waiters[i])
                ==> {
                let old_request = drain.requests.entries[drain.waiters[i]];
                let new_request = drain.all_drained(error).requests.entries[drain.waiters[i]];
                &&& new_request.permit is None
                &&& old_request.result is Pending ==> new_request.result == TakeOnceResult::<
                    SlotToken,
                >::Ready(Err(error))
                &&& !(old_request.result is Pending) ==> new_request.result == old_request.result
            },
        forall|request: RequestToken| #[trigger]
            drain.requests.entries.contains_key(request) && !drain.waiters.contains(request)
                ==> drain.all_drained(error).requests.entries[request]
                == drain.requests.entries[request],
    decreases drain.waiters.len(),
{
    if drain.waiters.len() > 0 {
        let next = drain.first_failed(error);
        drained_waiters_are_answered(next, error);
        assert forall|i: int|
            #![trigger drain.waiters[i]]
            0 <= i < drain.waiters.len() && drain.requests.entries.contains_key(
                drain.waiters[i],
            ) implies {
            let old_request = drain.requests.entries[drain.waiters[i]];
            let new_request = drain.all_drained(error).requests.entries[drain.waiters[i]];
            &&& new_request.permit is None
            &&& old_request.result is Pending ==> new_request.result == TakeOnceResult::<
                SlotToken,
            >::Ready(Err(error))
            &&& !(old_request.result is Pending) ==> new_request.result == old_request.result
        } by {
            let request = drain.waiters[i];
            if next.waiters.contains(request) {
                let k = choose|k: int| 0 <= k < next.waiters.len() && next.waiters[k] == request;
                assert(next.waiters[k] == request);
                assert(next.requests.entries.contains_key(next.waiters[k]));
            } else {
                if i > 0 {
                    assert(next.waiters[i - 1] == request);
                }
                assert(next.requests.entries.contains_key(request));
            }
        }
        assert forall|request: RequestToken| #[trigger]
            drain.requests.entries.contains_key(request) && !drain.waiters.contains(
                request,
            ) implies drain.all_drained(error).requests.entries[request]
            == drain.requests.entries[request] by {
            assert(!next.waiters.contains(request)) by {
                if next.waiters.contains(request) {
                    let k = choose|k: int|
                        0 <= k < next.waiters.len() && next.waiters[k] == request;
                    assert(drain.waiters[k + 1] == request);
                }
            }
            assert(drain.waiters[0] != request);
            assert(next.requests.entries.contains_key(request));
        }
    }
}

/// A bounded drain answers its first waiter, if it has room and budget for one, and
/// never more than its budget.
pub proof fn a_bounded_drain_answers_the_first(drain: WaiterDrain, budget: nat, error: Error)
    ensures
        drain.processed < budget && drain.actions.len() < 32 && drain.waiters.len() > 0 ==> {
            let next = drain.first_failed(error);
            &&& drain.drained(budget, error) == next.drained(budget, error)
            &&& next.waiters =~= drain.waiters.skip(1)
            &&& next.processed == drain.processed + 1
            &&& drain.requests.entries.contains_key(drain.waiters[0]) ==> {
                let old_request = drain.requests.entries[drain.waiters[0]];
                let new_request = next.requests.entries[drain.waiters[0]];
                &&& new_request.permit is None
                &&& old_request.result is Pending ==> new_request.result == TakeOnceResult::<
                    SlotToken,
                >::Ready(Err(error))
                &&& old_request.result is Pending ==> next.actions =~= drain.actions + seq![
                    Action::WakeAccept { request: old_request.token },
                ]
                &&& !(old_request.result is Pending) ==> next.actions == drain.actions
            }
        },
        drain.processed >= budget || drain.actions.len() >= 32 || drain.waiters.len() == 0
            ==> drain.drained(budget, error) == drain,
        drain.processed <= budget ==> drain.drained(budget, error).processed <= budget,
        drain.drained(budget, error).waiters.len() + drain.drained(budget, error).processed
            == drain.waiters.len() + drain.processed,
    decreases drain.waiters.len(),
{
    if drain.processed < budget && drain.room() >= 1 && drain.waiters.len() > 0 {
        a_bounded_drain_answers_the_first(drain.first_failed(error), budget, error);
    }
}

/// The pair that was selected ends with the listener: its waiter gives its permit back
/// and is answered with the error, over a success that it did not take if the pair
/// was set up already.
pub proof fn the_selected_waiter_is_answered(
    drain: WaiterDrain,
    selected: SelectedAccept,
    request: RequestToken,
    error: Error,
)
    requires
        match selected {
            SelectedAccept::Ready { request: waiter, .. } => waiter == request,
            SelectedAccept::Processing { request: waiter } => waiter == request,
            SelectedAccept::Routed { request: waiter, .. } => waiter == request,
        },
        drain.requests.entries.contains_key(request),
        drain.requests.entries[request].permit is Some,
    ensures
        ({
            let after = drain.selected_ended(Some(selected), error);
            let old_request = drain.requests.entries[request];
            let new_request = after.requests.entries[request];
            &&& new_request.permit is None
            &&& old_request.result is Pending ==> new_request.result == TakeOnceResult::<
                SlotToken,
            >::Ready(Err(error))
            &&& selected is Routed && (old_request.result matches TakeOnceResult::Ready(Ok(_)))
                ==> new_request.result == TakeOnceResult::<SlotToken>::Ready(Err(error))
            &&& !(selected is Routed) && !(old_request.result is Pending) ==> new_request.result
                == old_request.result
            &&& old_request.result is Pending || selected is Routed ==> after.actions
                =~= drain.actions + seq![Action::WakeAccept { request: old_request.token }]
            &&& !(old_request.result is Pending || selected is Routed) ==> after.actions
                == drain.actions
            &&& after.requests.entries.remove(request) =~= drain.requests.entries.remove(request)
            &&& after.waiters == drain.waiters
            &&& after.processed == drain.processed + 1
        }),
{
}

/// A listen that fails is answered with the error, if nothing was answered before, and
/// its waiter is told.
pub proof fn a_failed_listen_is_answered(
    requests: SlotsView<ListenRequest>,
    requests_after: SlotsView<ListenRequest>,
    actions: Seq<Action>,
    actions_after: Seq<Action>,
    request: RequestToken,
    error: Error,
)
    requires
        listen_failed(requests, requests_after, actions, actions_after, request, error),
    ensures
        requests_after.entries.dom() =~= requests.entries.dom(),
        requests_after.entries.remove(request) =~= requests.entries.remove(request),
        requests.entries.contains_key(request)
            && requests.entries[request].completion.result is Pending ==> {
            &&& requests_after.entries[request].completion.result == TakeOnceResult::<
                SlotToken,
            >::Ready(Err(error))
            &&& actions_after =~= actions + seq![Action::WakeListen { request }]
        },
        requests.entries.contains_key(request) && !(requests.entries[request].completion.result
            is Pending) ==> {
            &&& requests_after.entries[request].completion.result
                == requests.entries[request].completion.result
            &&& actions_after == actions
        },
        !requests.entries.contains_key(request) ==> actions_after == actions,
{
}

/// A listener that got its identifier is found by it: by the raw number and by the
/// context key. Where its listen was cancelled meanwhile it closes at once.
pub proof fn an_active_listener_is_found(
    before: CmView,
    after: CmView,
    token: ListenerToken,
    local_addr: String,
    cm_id: CmId,
    cancelled: bool,
)
    requires
        before.listeners.has(token),
        listener_activated(before, after, token, local_addr, cm_id, cancelled),
    ensures
        after.listeners.has(token),
        after.listeners.raw_ids =~= before.listeners.raw_ids.insert(cm_id.raw_id, token),
        after.routes =~= before.routes.insert(
            cm_id.context_key,
            ContextRoute::Listener { token, raw_id: cm_id.raw_id },
        ),
        after.listeners.entry(token)@.cm_id == Some(cm_id),
        after.listeners.entry(token)@.raw_id == cm_id.raw_id,
        after.listeners.entry(token)@.context_key == cm_id.context_key,
        after.listeners.entry(token)@.local_addr == Some(local_addr),
        after.listeners.entry(token)@.waiters == before.listeners.entry(token)@.waiters,
        !cancelled ==> {
            &&& after.listeners.entry(token)@.closing == before.listeners.entry(token)@.closing
            &&& after.listener_work == before.listener_work
        },
        cancelled ==> after.listeners.entry(token)@.closing,
        cancelled && !before.listeners.entry(token)@.closing ==> {
            &&& !after.listeners.entry(token)@.admission.open
            &&& after.listeners.entry(token)@.work_enqueued
            &&& !before.listeners.entry(token)@.work_enqueued ==> after.listener_work
                =~= before.listener_work + seq![token]
        },
        after.listeners.slots.entries.remove(token) =~= before.listeners.slots.entries.remove(token),
        after.destructions == before.destructions,
{
}

/// An identifier is free for a listener exactly where no route has its key, no listener
/// its raw number, and the listener has none yet.
pub proof fn a_listener_takes_a_free_identifier(cm: CmView, token: ListenerToken, cm_id: CmId)
    ensures
        identity_free(cm, token, cm_id) <==> !cm.routes.contains_key(cm_id.context_key)
            && !cm.listeners.raw_ids.contains_key(cm_id.raw_id) && cm.listeners.has(token)
            && cm.listeners.entry(token).cm_id is None && cm.listeners.entry(token).raw_id == 0
            && cm.listeners.entry(token).context_key == 0,
{
}

/// A failure of a listener closes it and has it looked at, once.
pub proof fn a_failing_listener_closes(
    before: CmView,
    after: CmView,
    listener: ListenerToken,
    error: Error,
)
    requires
        listener_failed(before, after, listener, error),
    ensures
        !before.listeners.has(listener) ==> after == before,
        before.listeners.has(listener) ==> {
            let old_view = before.listeners.entry(listener)@;
            let new_view = after.listeners.entry(listener)@;
            &&& after.listeners.has(listener)
            &&& new_view.closing
            &&& !new_view.admission.open
            &&& new_view.failure == if old_view.failure is Some {
                old_view.failure
            } else {
                Some(error)
            }
            &&& new_view.waiters == old_view.waiters
            &&& new_view.children == old_view.children
            &&& new_view.selected == old_view.selected
            &&& new_view.cm_id == old_view.cm_id
            &&& !old_view.closing ==> new_view.work_enqueued
            &&& after.listener_work =~= if !old_view.closing && !old_view.work_enqueued {
                before.listener_work + seq![listener]
            } else {
                before.listener_work
            }
            &&& after.listeners.slots.entries.remove(listener)
                =~= before.listeners.slots.entries.remove(listener)
            &&& after.routes == before.routes
        },
{
}

/// A finalized listener no longer answers to its raw number. Its identifier is queued
/// for destruction, and the listener stays until that is done; a listener that has
/// none and waits for none leaves the table.
pub proof fn a_finalized_listener_is_unreachable(
    before: CmView,
    after: CmView,
    listener: ListenerToken,
)
    requires
        listener_finalized(before, after, listener),
        before.listeners.has(listener),
    ensures
        ({
            let old_view = before.listeners.entry(listener)@;
            let raw_id = old_view.raw_id;
            &&& raw_id != 0 && before.listeners.raw_ids.contains_key(raw_id)
                && before.listeners.raw_ids[raw_id] == listener
                ==> !after.listeners.raw_ids.contains_key(raw_id)
            &&& forall|other: u64|
                #![trigger after.listeners.raw_ids.contains_key(other)]
                before.listeners.raw_ids.contains_key(other) && before.listeners.raw_ids[other]
                    != listener ==> after.listeners.raw_ids.contains_key(other)
                    && after.listeners.raw_ids[other] == before.listeners.raw_ids[other]
            &&& old_view.cm_id matches Some(cm_id) ==> {
                &&& after.destructions =~= before.destructions + seq![
                    PendingCmDestruction::Listener { cm_id, listener },
                ]
                &&& after.listeners.has(listener)
                &&& after.listeners.entry(listener)@.cm_id is None
                &&& after.listeners.entry(listener)@.cm_destruction_pending
                &&& after.routes == before.routes
            }
            &&& old_view.cm_id is None && old_view.cm_destruction_pending ==> {
                &&& after.listeners.has(listener)
                &&& after.destructions == before.destructions
            }
            &&& old_view.cm_id is None && !old_view.cm_destruction_pending ==> {
                &&& !after.listeners.has(listener)
                &&& after.destructions == before.destructions
            }
        }),
{
}

/// Whoever is asked to look at a listener is asked once: the queue holds it, and it
/// knows.
pub proof fn a_listener_is_queued_once(before: CmView, after: CmView, listener: ListenerToken)
    requires
        before.queues_work(after, listener),
    ensures
        before.listeners.has(listener) && !before.listeners.entry(listener).work_enqueued ==> {
            &&& after.listener_work =~= before.listener_work + seq![listener]
            &&& after.listeners.has(listener)
            &&& after.listeners.entry(listener)@.work_enqueued
            &&& after.listeners.entry(listener)@.waiters == before.listeners.entry(
                listener,
            )@.waiters
            &&& after.listeners.entry(listener)@.selected == before.listeners.entry(
                listener,
            )@.selected
        },
        !before.listeners.has(listener) || before.listeners.entry(listener).work_enqueued ==> after
            == before,
{
}

/// A listener that leaves the table is unreachable by its token and its raw number, and
/// nobody else's change.
pub proof fn a_removed_listener_is_gone(cm: CmView, token: ListenerToken, completed: bool)
    requires
        cm.listeners.slots.tabled(),
    ensures
        !cm.listeners.has(token) ==> cm.without_listener(token, completed) == cm,
        cm.listeners.has(token) ==> {
            let after = cm.without_listener(token, completed);
            &&& !after.listeners.has(token)
            &&& after.listeners.slots.entries =~= cm.listeners.slots.entries.remove(token)
            &&& completed ==> after.listeners.slots.lookup(token) is Duplicate
            &&& !completed ==> !(after.listeners.slots.lookup(token) is Duplicate)
            &&& forall|other: u64|
                #![trigger cm.listeners.raw_ids[other]]
                cm.listeners.raw_ids.contains_key(other) && cm.listeners.raw_ids[other] != token
                    ==> after.listeners.raw_ids.contains_key(other)
                    && after.listeners.raw_ids[other] == cm.listeners.raw_ids[other]
            &&& cm.listeners.entry(token).raw_id != 0 && cm.listeners.raw_ids.contains_key(
                cm.listeners.entry(token).raw_id,
            ) && cm.listeners.raw_ids[cm.listeners.entry(token).raw_id] == token
                ==> !after.listeners.raw_ids.contains_key(cm.listeners.entry(token).raw_id)
            &&& after.routes == cm.routes
            &&& after.pending_listens == cm.pending_listens
            &&& after.listener_work == cm.listener_work
            &&& after.destructions == cm.destructions
            &&& after.listeners_spent == cm.listeners_spent + if token.generation == u32::MAX {
                1int
            } else {
                0
            }
        },
{
}

/// An identifier takes with it the route under its context key, if it is that route's
/// own, and no other.
pub proof fn an_identifier_takes_its_own_route(cm: CmView, cm_id: CmId)
    ensures
        forall|key: u64|
            #![trigger cm.routes_without(cm_id).contains_key(key)]
            key != cm_id.context_key ==> (cm.routes_without(cm_id).contains_key(key)
                <==> cm.routes.contains_key(key)) && cm.routes_without(cm_id)[key]
                == cm.routes[key],
        cm_id.context_token matches Some(number) && cm.routes.contains_key(cm_id.context_key) && (
        match cm.routes[cm_id.context_key] {
            ContextRoute::Outbound { token, raw_id } => token.encoded() == number && raw_id
                == cm_id.raw_id,
            ContextRoute::Inbound { token, raw_id } => token.encoded() == number && raw_id
                == cm_id.raw_id,
            ContextRoute::Listener { token, raw_id } => token.encoded() == number && raw_id
                == cm_id.raw_id,
        }) ==> !cm.routes_without(cm_id).contains_key(cm_id.context_key),
        cm_id.context_token is None || (cm.routes.contains_key(cm_id.context_key) && match cm.routes[cm_id.context_key] {
            ContextRoute::Outbound { token, raw_id } => token.encoded()
                != cm_id.context_token->0 || raw_id != cm_id.raw_id,
            ContextRoute::Inbound { token, raw_id } => token.encoded()
                != cm_id.context_token->0 || raw_id != cm_id.raw_id,
            ContextRoute::Listener { token, raw_id } => token.encoded()
                != cm_id.context_token->0 || raw_id != cm_id.raw_id,
        }) ==> cm.routes_without(cm_id) == cm.routes,
{
}

/// The end of a routed pair has its listener looked at and lets the next pair form; a
/// listener with another pair, or none, stays as it is.
pub proof fn the_end_of_a_pair_is_looked_at(
    before: CmView,
    after: CmView,
    listener: ListenerToken,
    route: u64,
    requests: Map<SlotToken, AcceptRequest>,
)
    requires
        CmState::ends_selection(before, after, listener, route, requests),
    ensures
        ({
            let selected = before.listeners.entry(listener)@.selected;
            if before.listeners.has(listener) && (selected matches Some(
                SelectedAccept::Routed { route: current, .. },
            ) && current == route) {
                &&& after.listeners.has(listener)
                &&& after.listeners.entry(listener)@.work_enqueued
                &&& before.listeners.entry(listener).work_enqueued ==> after.listener_work
                    == before.listener_work
                &&& !before.listeners.entry(listener).work_enqueued ==> after.listener_work
                    =~= before.listener_work + seq![listener]
                &&& !(after.listeners.entry(listener)@.selected matches Some(
                    SelectedAccept::Routed { .. },
                ))
                &&& before.listeners.entry(listener)@.child_slots_used > 0
                    ==> after.listeners.entry(listener)@.child_slots_used
                    == before.listeners.entry(listener)@.child_slots_used - 1
            } else {
                after == before
            }
        }),
{
}

/// The identifier of a listener is queued for its destruction, and the listener, if it
/// is still there, knows that it waits for it.
pub proof fn a_listeners_identifier_is_queued(
    before: CmView,
    after: CmView,
    listener: ListenerToken,
    cm_id: CmId,
)
    requires
        CmState::defers_listener(before, after, listener, cm_id),
    ensures
        after.destructions =~= before.destructions + seq![
            PendingCmDestruction::Listener { cm_id, listener },
        ],
        before.listeners.has(listener) ==> {
            &&& after.listeners.has(listener)
            &&& after.listeners.entry(listener)@.cm_destruction_pending
            &&& after.listeners.entry(listener)@.cm_id == before.listeners.entry(listener)@.cm_id
            &&& after.listeners.slots.entries.remove(listener)
                =~= before.listeners.slots.entries.remove(listener)
        },
        !before.listeners.has(listener) ==> after.listeners == before.listeners,
        after.routes == before.routes,
        after.listener_work == before.listener_work,
{
}

/// What waits for its destruction is an identifier, and that of a listener names it.
pub proof fn a_queued_destruction_is_of_its_identifier(
    cm_id: CmId,
    listener: ListenerToken,
    sum: nat,
)
    ensures
        PendingCmDestruction::Route(cm_id).owned_id() == cm_id,
        PendingCmDestruction::Route(cm_id).owning_listener() is None,
        (PendingCmDestruction::Listener { cm_id, listener }).owned_id() == cm_id,
        (PendingCmDestruction::Listener { cm_id, listener }).owning_listener() == Some(listener),
        forall|token: SlotToken, completion: Option<crate::cm::InboundRetirementCompletion>|
            #![trigger (PendingCmDestruction::Connection { cm_id, token, completion }).owned_id()]
            (PendingCmDestruction::Connection { cm_id, token, completion }).owned_id() == cm_id
                && (PendingCmDestruction::Connection {
                cm_id,
                token,
                completion,
            }).owning_listener() is None,
        sum <= usize::MAX ==> crate::cm::saturated(sum) == sum,
        sum > usize::MAX ==> crate::cm::saturated(sum) == usize::MAX,
{
}

/// Whether a listen was cancelled is what its request says, as long as it is held.
pub proof fn a_held_listen_knows_its_cancellation(
    requests: SlotsView<ListenRequest>,
    request: RequestToken,
)
    ensures
        listen_cancelled(requests, request) <==> requests.entries.contains_key(request)
            && requests.entries[request].completion.cancelled,
{
}

/// The identifiers that listeners hold are counted one by one, wherever the count is
/// split.
pub proof fn held_identifiers_add_up(
    view: ListenersView,
    first: Seq<SlotToken>,
    second: Seq<SlotToken>,
)
    ensures
        ListenerRegistry::owners_among(view, first + second) == ListenerRegistry::owners_among(
            view,
            first,
        ) + ListenerRegistry::owners_among(view, second),
        first.len() == 1 && view.entry(first[0]).cm_id is Some ==> ListenerRegistry::owners_among(
            view,
            first,
        ) == 1,
        first.len() == 1 && view.entry(first[0]).cm_id is None ==> ListenerRegistry::owners_among(
            view,
            first,
        ) == 0,
        first.len() == 0 ==> ListenerRegistry::owners_among(view, first) == 0,
    decreases second.len(),
{
    if second.len() == 0 {
        assert(first + second =~= first);
    } else {
        assert((first + second).drop_last() =~= first + second.drop_last());
        assert((first + second).last() == second.last());
        held_identifiers_add_up(view, first, second.drop_last());
    }
    if first.len() == 1 {
        assert(first.drop_last().len() == 0);
        assert(ListenerRegistry::owners_among(view, first.drop_last()) == 0);
    }
}

} // verus!
