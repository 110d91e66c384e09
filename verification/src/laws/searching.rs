//! What the search of a shutdown, or of a failure, owes to the connects that wait.

use vstd::prelude::*;

use crate::actions::Action;
use crate::cm::CmView;
use crate::error::Error;
use crate::laws::listening::drained_waiters_are_answered;
use crate::listen::{listen_completed, listen_woken};
use crate::listener::{ListenerEntry, WaiterDrain};
use crate::registry::RegistryView;
use crate::requests::OutboundRequest;
use crate::routes::OutboundState;
use crate::shutdown::{
    all_connects, connects_end_woken, connects_ended, listener_ended, listens_ended, shutdown_run,
    shutdown_served, shutdown_unit, waiting_connects, CmShutdownClass, ShutdownView, UnitEnd,
};
use crate::slots::SlotsView;
use crate::tables::TablesView;
use crate::terminal::{MemoizedTerminalResult, TakeOnceResult};
use crate::token::{ConnectionToken, ListenerToken, RequestToken, SlotToken};

verus! {

/// The states of an outbound route in which somebody still waits for `request`.
pub open spec fn carries(state: OutboundState, request: RequestToken) -> bool {
    ||| (state is AwaitAddr && state->AwaitAddr_request == request)
    ||| (state is AwaitRoute && state->AwaitRoute_request == request)
    ||| (state is AwaitEstablished && state->AwaitEstablished_request == request)
    ||| (state is EstablishedAwaitingDelivery && state->EstablishedAwaitingDelivery_request
        == request)
    ||| (state is DisconnectedAwaitingDelivery && state->DisconnectedAwaitingDelivery_request
        == request)
    ||| (state is FailedAwaitingDelivery && state->FailedAwaitingDelivery_request == request)
}

/// A connect request that, where the table still holds it, is cancelled and has
/// no success to hand out any more.
pub open spec fn connect_over(connects: SlotsView<OutboundRequest>, request: RequestToken) -> bool {
    connects.entries.contains_key(request) ==> {
        &&& connects.entries[request].completion.cancelled
        &&& !(connects.entries[request].completion.result is Pending)
        &&& !(connects.entries[request].completion.result matches TakeOnceResult::Ready(Ok(_)))
    }
}

/// Every connect that a route in a searched slot waits for is over and queued among
/// the cancellations.
pub open spec fn routes_searched(view: ShutdownView) -> bool {
    forall|token: ConnectionToken, request: RequestToken|
        #![trigger view.tables.connections.outbound(token), carries(
            view.tables.connections.outbound_route(token).state,
            request,
        )]
        view.tables.connections.outbound(token) && (view.cursor.routes_complete || token.slot
            < view.cursor.route_slot) && carries(
            view.tables.connections.outbound_route(token).state,
            request,
        ) ==> {
            &&& view.tables.connections.cancellations.contains(request)
            &&& connect_over(view.tables.connects, request)
        }
}

proof fn occupants_are_listed<T>(slots: SlotsView<T>, token: SlotToken, from: int, upto: int)
    requires
        slots.tabled(),
        slots.entries.contains_key(token),
        0 <= from <= token.slot < upto <= slots.marks.len(),
    ensures
        slots.occupied_between(from, upto).contains(token),
    decreases upto,
{
    let before = slots.occupied_between(from, upto - 1);
    if token.slot == upto - 1 {
        assert(slots.newest(upto - 1) == token);
        assert(slots.occupied_between(from, upto).last() == token);
    } else {
        occupants_are_listed(slots, token, from, upto - 1);
        let i = choose|i: int| 0 <= i < before.len() && before[i] == token;
        assert(slots.occupied_between(from, upto)[i] == token);
    }
}

/// A unit of the search, of whatever class, leaves every searched slot searched, and
/// it changes no route. A unit of the route search either finishes it or moves on by
/// one slot.
pub proof fn searched_routes_stay_searched(
    before: ShutdownView,
    after: ShutdownView,
    class: CmShutdownClass,
    outcome: MemoizedTerminalResult,
    terminalize: bool,
    end: UnitEnd,
)
    requires
        before.tables.connections.slots.tabled(),
        shutdown_unit(before, after, class, outcome, terminalize, end),
        routes_searched(before),
    ensures
        routes_searched(after),
        after.tables.connections.slots == before.tables.connections.slots,
        class is Routes && end is Stop ==> after.cursor.routes_complete,
        class is Routes && !(end is Stop) ==> {
            &&& end is Next
            &&& after.cursor.route_slot == before.cursor.route_slot + 1
        },
        !(class is Routes) ==> {
            &&& after.cursor.route_slot == before.cursor.route_slot
            &&& after.cursor.routes_complete == before.cursor.routes_complete
        },
{
    reveal(shutdown_unit);
    let view = before.tables.connections;
    let slots = view.slots;
    assert(after.tables.connections.slots == slots);
    let cancelled = after.tables.connections.cancellations;
    let slot = before.cursor.route_slot;
    let works = class is Routes && !(end is Stop);
    let tokens = slots.occupied_between(slot as int, slot + 1);
    let routes = tokens.filter(|token: SlotToken| view.outbound(token));
    if works {
        slots.occupied_are_bounded(slot as int, slot + 1);
        tokens.lemma_filter_len(|token: SlotToken| view.outbound(token));
    }
    assert forall|token: ConnectionToken, request: RequestToken|
        #![trigger after.tables.connections.outbound(token), carries(
            after.tables.connections.outbound_route(token).state,
            request,
        )]
        after.tables.connections.outbound(token) && (after.cursor.routes_complete || token.slot
            < after.cursor.route_slot) && carries(
            after.tables.connections.outbound_route(token).state,
            request,
        ) implies {
        &&& after.tables.connections.cancellations.contains(request)
        &&& connect_over(after.tables.connects, request)
    } by {
        assert(view.outbound(token));
        assert(carries(view.outbound_route(token).state, request));
        if before.cursor.routes_complete || token.slot < before.cursor.route_slot {
            let i = choose|i: int|
                0 <= i < view.cancellations.len() && view.cancellations[i] == request;
            assert(cancelled[i] == request);
        } else if !works {
            assert(view.routed().contains(token));
            assert(view.routed().subset_of(slots.entries.dom()));
            vstd::set_lib::lemma_len_subset(view.routed(), slots.entries.dom());
            assert(view.routed().len() > 0) by {
                vstd::set_lib::lemma_set_empty_equivalency_len(view.routed());
            }
            assert(false);
        } else {
            assert(token.slot == slot);
            occupants_are_listed(slots, token, slot as int, slot + 1);
            let i = choose|i: int| 0 <= i < tokens.len() && tokens[i] == token;
            tokens.lemma_filter_contains(|token: SlotToken| view.outbound(token), i);
            assert(routes.len() == 1 && routes[0] == token);
            assert(cancelled.last() == request);
        }
    }
}

proof fn searched_runs_stay_searched(
    states: Seq<ShutdownView>,
    ends: Seq<UnitEnd>,
    class: CmShutdownClass,
    outcome: MemoizedTerminalResult,
    terminalize: bool,
    budget: usize,
    upto: int,
)
    requires
        shutdown_run(states, ends, class, outcome, terminalize, budget),
        states[0].tables.connections.slots.tabled(),
        routes_searched(states[0]),
        0 <= upto < states.len(),
    ensures
        routes_searched(states[upto]),
        states[upto].tables.connections.slots == states[0].tables.connections.slots,
    decreases upto,
{
    if upto > 0 {
        searched_runs_stay_searched(
            states,
            ends,
            class,
            outcome,
            terminalize,
            budget,
            upto - 1,
        );
        assert(crate::shutdown::run_step(
            states,
            ends,
            class,
            outcome,
            terminalize,
            budget,
            upto - 1,
        ));
        searched_routes_stay_searched(
            states[upto - 1],
            states[upto],
            class,
            outcome,
            terminalize,
            ends[upto - 1],
        );
    }
}

/// A turn of the search, of whatever class and budget, keeps this: every connect that
/// a route in a searched slot waits for, whether for its address, its route, its
/// establishment or its delivery, is cancelled, has no success to hand out and is
/// queued among the cancellations. A search that has seen no slot yet keeps it from
/// the start; once every route has been searched no connect that a route waits for
/// is pending any more.
pub proof fn searched_routes_wait_for_nothing(
    before: ShutdownView,
    after: ShutdownView,
    class: CmShutdownClass,
    outcome: MemoizedTerminalResult,
    terminalize: bool,
    budget: usize,
    processed: usize,
)
    requires
        before.tables.connections.slots.tabled(),
        shutdown_served(before, after, class, outcome, terminalize, budget, processed),
        (before.cursor.route_slot == 0 && !before.cursor.routes_complete) || routes_searched(
            before,
        ),
    ensures
        routes_searched(after),
        after.tables.connections.slots == before.tables.connections.slots,
        after.cursor.routes_complete ==> forall|token: ConnectionToken, request: RequestToken|
            #![trigger after.tables.connections.outbound(token), carries(
                after.tables.connections.outbound_route(token).state,
                request,
            )]
            after.tables.connections.outbound(token) && carries(
                after.tables.connections.outbound_route(token).state,
                request,
            ) ==> {
                &&& after.tables.connections.cancellations.contains(request)
                &&& after.tables.connects.entries.contains_key(request) ==> {
                    &&& after.tables.connects.entries[request].completion.cancelled
                    &&& !(after.tables.connects.entries[request].completion.result is Pending)
                }
            },
{
    let (states, ends) = choose|states: Seq<ShutdownView>, ends: Seq<UnitEnd>| #[trigger]
        shutdown_run(states, ends, class, outcome, terminalize, budget)
            && states[0].tables == before.tables && states[0].cursor.route_slot
            == before.cursor.route_slot && states[0].cursor.routes_complete
            == before.cursor.routes_complete && states.last() == after;
    searched_runs_stay_searched(
        states,
        ends,
        class,
        outcome,
        terminalize,
        budget,
        states.len() - 1,
    );
}

proof fn waiting_routes_are_listed(
    view: RegistryView,
    tokens: Seq<ConnectionToken>,
    token: ConnectionToken,
    request: RequestToken,
)
    requires
        tokens.contains(token),
        view.outbound(token),
        carries(view.outbound_route(token).state, request),
    ensures
        waiting_connects(view, tokens).contains(request),
    decreases tokens.len(),
{
    let all = waiting_connects(view, tokens);
    if tokens.last() == token {
        assert(all.last() == request);
    } else {
        let i = choose|i: int| 0 <= i < tokens.len() && tokens[i] == token;
        assert(tokens.drop_last()[i] == token);
        waiting_routes_are_listed(view, tokens.drop_last(), token, request);
        let rest = waiting_connects(view, tokens.drop_last());
        let k = choose|k: int| 0 <= k < rest.len() && rest[k] == request;
        assert(all[k] == request);
    }
}

/// A failure of the engine ends every connect at once: no outbound route that waits
/// for its address, its route, its establishment or its delivery is passed over, and
/// no connect that waits for its start is.
pub proof fn a_failure_reaches_every_connect(view: RegistryView)
    requires
        view.slots.tabled(),
    ensures
        forall|token: ConnectionToken, request: RequestToken|
            #![trigger view.outbound(token), carries(view.outbound_route(token).state, request)]
            view.outbound(token) && carries(view.outbound_route(token).state, request)
                ==> all_connects(view).contains(request),
        forall|i: int|
            #![trigger view.pending_outbound[i]]
            0 <= i < view.pending_outbound.len() ==> all_connects(view).contains(
                view.pending_outbound[i].0,
            ),
{
    let slots = view.slots;
    let tokens = slots.occupied_between(0, slots.marks.len() as int);
    let routes = tokens.filter(|token: SlotToken| view.outbound(token));
    let waiting = waiting_connects(view, routes);
    let all = all_connects(view);
    assert forall|token: ConnectionToken, request: RequestToken|
        #![trigger view.outbound(token), carries(view.outbound_route(token).state, request)]
        view.outbound(token) && carries(
            view.outbound_route(token).state,
            request,
        ) implies all.contains(request) by {
        occupants_are_listed(slots, token, 0, slots.marks.len() as int);
        let i = choose|i: int| 0 <= i < tokens.len() && tokens[i] == token;
        tokens.lemma_filter_contains(|token: SlotToken| view.outbound(token), i);
        waiting_routes_are_listed(view, routes, token, request);
        let k = choose|k: int| 0 <= k < waiting.len() && waiting[k] == request;
        assert(all[k] == request);
    }
    assert forall|i: int|
        #![trigger view.pending_outbound[i]]
        0 <= i < view.pending_outbound.len() implies all.contains(view.pending_outbound[i].0) by {
        assert(all[waiting.len() + i] == view.pending_outbound[i].0);
    }
}

/// To end connects is to leave none of them pending or successful, and to touch no
/// other request: a result that was an error, or was taken, stays.
pub proof fn ended_connects_are_over(
    connects: SlotsView<OutboundRequest>,
    requests: Seq<RequestToken>,
    error: Error,
)
    ensures
        connects_ended(connects, requests, error).entries.dom() == connects.entries.dom(),
        forall|request: RequestToken| #[trigger]
            requests.contains(request) ==> connect_over(
                connects_ended(connects, requests, error),
                request,
            ),
        forall|request: RequestToken| #[trigger]
            connects.entries.contains_key(request) && !requests.contains(request)
                ==> connects_ended(connects, requests, error).entries[request]
                == connects.entries[request],
        forall|request: RequestToken|
            #![trigger connects.entries[request]]
            connects.entries.contains_key(request) && requests.contains(request) ==> {
                let old_result = connects.entries[request].completion.result;
                let new_result = connects_ended(
                    connects,
                    requests,
                    error,
                ).entries[request].completion.result;
                if old_result is Pending || old_result matches TakeOnceResult::Ready(Ok(_)) {
                    new_result == TakeOnceResult::<SlotToken>::Ready(Err(error))
                } else {
                    new_result == old_result
                }
            },
    decreases requests.len(),
{
    if requests.len() > 0 {
        let rest = requests.drop_last();
        ended_connects_are_over(connects, rest, error);
        assert forall|request: RequestToken| requests.contains(
            request,
        ) implies rest.contains(request) || request == requests.last() by {
            let i = choose|i: int| 0 <= i < requests.len() && requests[i] == request;
            if i < rest.len() {
                assert(rest[i] == request);
            }
        }
        assert forall|request: RequestToken| rest.contains(request) implies requests.contains(
            request,
        ) by {
            let i = choose|i: int| 0 <= i < rest.len() && rest[i] == request;
            assert(requests[i] == request);
        }
        assert(requests.contains(requests.last())) by {
            assert(requests[requests.len() - 1] == requests.last());
        }
    }
}

/// Every listener in a searched slot closes and takes nothing more. Where the search
/// also ends what waits, every listener that it is done with has no waiter left and a
/// close with an outcome, and it is done with every listener in a searched slot.
pub open spec fn listeners_searched(view: ShutdownView, terminalize: bool) -> bool {
    &&& forall|token: ListenerToken| #[trigger]
        view.tables.cm.listeners.has(token) && (view.cursor.listeners_complete || token.slot
            < view.cursor.listener_slot) ==> {
            &&& view.tables.cm.listeners.entry(token)@.closing
            &&& !view.tables.cm.listeners.entry(token)@.admission.open
            &&& terminalize ==> view.cursor.terminalized.contains(token.encoded() as u64)
        }
    &&& forall|token: ListenerToken| #[trigger]
        view.tables.cm.listeners.has(token) && view.cursor.terminalized.contains(
            token.encoded() as u64,
        ) ==> {
            &&& view.tables.cm.listeners.entry(token)@.closing
            &&& view.tables.cm.listeners.entry(token)@.waiters.len() == 0
            &&& view.tables.cm.listeners.entry(token)@.close.outcome is Some
        }
}

/// A unit of the search, of whatever class, leaves every searched listener searched: it
/// asks each listener that it passes to close, and passes none whose waiters it has yet
/// to end.
#[verifier::rlimit(30)]
pub proof fn searched_listeners_stay_searched(
    before: ShutdownView,
    after: ShutdownView,
    class: CmShutdownClass,
    outcome: MemoizedTerminalResult,
    terminalize: bool,
    end: UnitEnd,
)
    requires
        before.tables.cm.listeners.slots.tabled(),
        shutdown_unit(before, after, class, outcome, terminalize, end),
        listeners_searched(before, terminalize),
    ensures
        listeners_searched(after, terminalize),
        after.tables.cm.listeners.slots.tabled(),
        class is Listeners && end is Stop ==> after.cursor.listeners_complete,
        class is RetainedListeners && end is Stop ==> !terminalize
            || after.cursor.destructions_complete,
        !(class is Listeners) ==> {
            &&& after.cursor.listener_slot == before.cursor.listener_slot
            &&& after.cursor.listeners_complete == before.cursor.listeners_complete
        },
{
    reveal(shutdown_unit);
    let listeners = before.tables.cm.listeners;
    let slots = listeners.slots;
    let slot = before.cursor.listener_slot;
    if class is PendingListen && before.tables.cm.pending_listens.len() > 0 {
        let gone = before.tables.cm.pending_listens[0].0;
        if slots.entries.contains_key(gone) {
            let removed = slots.removed(gone, false);
            assert forall|other: SlotToken| #[trigger]
                removed.entries.contains_key(other) <==> {
                    &&& other.slot < removed.marks.len()
                    &&& removed.marks[other.slot as int].generation == other.generation
                    &&& removed.marks[other.slot as int].kind is Occupied
                } by {
                assert(slots.entries.contains_key(other) <==> {
                    &&& other.slot < slots.marks.len()
                    &&& slots.marks[other.slot as int].generation == other.generation
                    &&& slots.marks[other.slot as int].kind is Occupied
                });
            }
        }
    } else {
        if class is Listeners && slot < slots.marks.len() {
            let tokens = slots.occupied_between(slot as int, slot + 1);
            slots.occupied_are_bounded(slot as int, slot + 1);
            if tokens.len() > 0 {
                assert(slots.lookup(tokens[0]) is Occupied);
                assert(slots.entries.contains_key(tokens[0]));
                assert(slots.occupied_between(slot as int, slot as int).len() == 0);
                assert(tokens[0] == slots.newest(slot as int));
            }
        }
        assert forall|token: ListenerToken| #[trigger]
            after.tables.cm.listeners.has(token) <==> listeners.has(token) by {}
        assert(after.tables.cm.listeners.slots.marks == slots.marks);
        assert(after.tables.cm.listeners.slots.entries.dom() =~= slots.entries.dom());
    }
    assert forall|token: ListenerToken| #[trigger]
        after.tables.cm.listeners.has(token) && (after.cursor.listeners_complete || token.slot
            < after.cursor.listener_slot) implies {
        &&& after.tables.cm.listeners.entry(token)@.closing
        &&& !after.tables.cm.listeners.entry(token)@.admission.open
        &&& terminalize ==> after.cursor.terminalized.contains(token.encoded() as u64)
    } by {
        assert(listeners.has(token));
        if !(before.cursor.listeners_complete || token.slot < before.cursor.listener_slot) {
            assert(class is Listeners);
            assert(slot < slots.marks.len());
            assert(token.slot == slot);
            slots.occupied_are_bounded(slot as int, slot + 1);
            occupants_are_listed(slots, token, slot as int, slot + 1);
            assert(slots.occupied_between(slot as int, slot + 1)[0] == token);
        }
    }
    assert forall|token: ListenerToken| #[trigger]
        after.tables.cm.listeners.has(token) && after.cursor.terminalized.contains(
            token.encoded() as u64,
        ) implies {
        &&& after.tables.cm.listeners.entry(token)@.closing
        &&& after.tables.cm.listeners.entry(token)@.waiters.len() == 0
        &&& after.tables.cm.listeners.entry(token)@.close.outcome is Some
    } by {
        assert(listeners.has(token));
    }
}

/// Whoever still waits for a connect that is ended is told, and nothing that was
/// published before is lost.
pub proof fn ended_connects_are_told(
    connects: SlotsView<OutboundRequest>,
    requests: Seq<RequestToken>,
    error: Error,
    actions: Seq<Action>,
)
    ensures
        actions.len() <= connects_end_woken(connects, requests, error, actions).len()
            <= actions.len() + requests.len(),
        connects_end_woken(connects, requests, error, actions).take(actions.len() as int)
            =~= actions,
        forall|request: RequestToken|
            #![trigger connects.entries[request]]
            requests.contains(request) && connects.entries.contains_key(request) && (
            connects.entries[request].completion.result is Pending || (
            connects.entries[request].completion.result matches TakeOnceResult::Ready(Ok(_))))
                ==> connects_end_woken(connects, requests, error, actions).contains(
                Action::WakeConnect { request },
            ),
    decreases requests.len(),
{
    if requests.len() > 0 {
        let rest = requests.drop_last();
        let told = connects_end_woken(connects, rest, error, actions);
        let after = connects_end_woken(connects, requests, error, actions);
        ended_connects_are_told(connects, rest, error, actions);
        ended_connects_are_over(connects, rest, error);
        assert(after.take(actions.len() as int) =~= told.take(actions.len() as int));
        assert forall|request: RequestToken|
            #![trigger connects.entries[request]]
            requests.contains(request) && connects.entries.contains_key(request) && (
            connects.entries[request].completion.result is Pending || (
            connects.entries[request].completion.result matches TakeOnceResult::Ready(
                Ok(_),
            ))) implies after.contains(Action::WakeConnect { request }) by {
            if rest.contains(request) {
                let k = choose|k: int|
                    0 <= k < told.len() && told[k] == (Action::WakeConnect { request });
                assert(after[k] == told[k]);
            } else {
                let i = choose|i: int| 0 <= i < requests.len() && requests[i] == request;
                if i < rest.len() {
                    assert(rest[i] == request);
                }
                assert(request == requests.last());
                assert(connects_ended(connects, rest, error).entries[request]
                    == connects.entries[request]);
                assert(after.last() == (Action::WakeConnect { request }));
            }
        }
    }
}

/// A failure of the engine answers every listen that waits for its start, takes its
/// listener out and leaves none waiting.
pub proof fn a_failure_ends_every_waiting_listen(
    tables: TablesView,
    actions: Seq<Action>,
    error: Error,
)
    ensures
        listens_ended(tables, actions, error).0.cm.pending_listens.len() == 0,
        listens_ended(tables, actions, error).0.listens.entries.dom()
            =~= tables.listens.entries.dom(),
        forall|i: int|
            #![trigger tables.cm.pending_listens[i]]
            0 <= i < tables.cm.pending_listens.len() ==> {
                let (listener, request) = tables.cm.pending_listens[i];
                let after = listens_ended(tables, actions, error).0;
                &&& !after.cm.listeners.has(listener)
                &&& tables.listens.entries.contains_key(request)
                    ==> !(after.listens.entries[request].completion.result is Pending)
            },
        forall|token: ListenerToken| #[trigger]
            listens_ended(tables, actions, error).0.cm.listeners.has(token)
                ==> tables.cm.listeners.has(token),
        forall|request: RequestToken|
            #![trigger tables.listens.entries[request]]
            tables.listens.entries.contains_key(request) ==> {
                let old_result = tables.listens.entries[request].completion.result;
                let new_result = listens_ended(
                    tables,
                    actions,
                    error,
                ).0.listens.entries[request].completion.result;
                new_result == old_result || (old_result is Pending && new_result
                    == TakeOnceResult::<SlotToken>::Ready(Err(error)))
            },
        listens_ended(tables, actions, error).0.connections == tables.connections,
        listens_ended(tables, actions, error).0.connects == tables.connects,
        listens_ended(tables, actions, error).0.accepts == tables.accepts,
    decreases tables.cm.pending_listens.len(),
{
    if tables.cm.pending_listens.len() > 0 {
        let (listener, request) = tables.cm.pending_listens[0];
        let next = TablesView {
            cm: (CmView {
                pending_listens: tables.cm.pending_listens.skip(1),
                ..tables.cm
            }).without_listener(listener, false),
            listens: listen_completed(tables.listens, request, Err(error)),
            ..tables
        };
        let told = listen_woken(tables.listens, request, actions);
        a_failure_ends_every_waiting_listen(next, told, error);
        let after = listens_ended(tables, actions, error).0;
        assert(after == listens_ended(next, told, error).0);
        assert forall|i: int|
            #![trigger tables.cm.pending_listens[i]]
            0 <= i < tables.cm.pending_listens.len() implies {
            let (gone, waiting) = tables.cm.pending_listens[i];
            &&& !after.cm.listeners.has(gone)
            &&& tables.listens.entries.contains_key(waiting)
                ==> !(after.listens.entries[waiting].completion.result is Pending)
        } by {
            if i > 0 {
                assert(next.cm.pending_listens[i - 1] == tables.cm.pending_listens[i]);
            } else {
                assert(!next.cm.listeners.has(listener));
                if tables.listens.entries.contains_key(request) {
                    assert(next.listens.entries.contains_key(request));
                    assert(!(next.listens.entries[request].completion.result is Pending));
                }
            }
        }
        assert forall|waiting: RequestToken|
            #![trigger tables.listens.entries[waiting]]
            tables.listens.entries.contains_key(waiting) implies {
            let old_result = tables.listens.entries[waiting].completion.result;
            let new_result = after.listens.entries[waiting].completion.result;
            new_result == old_result || (old_result is Pending && new_result == TakeOnceResult::<
                SlotToken,
            >::Ready(Err(error)))
        } by {
            assert(next.listens.entries.contains_key(waiting));
            let middle = next.listens.entries[waiting].completion.result;
        }
    }
}

/// A failure of the engine ends a listener: it closes with that failure where it had no
/// outcome, takes nothing more, and none of its waiters waits any longer: each is
/// answered and gives its permit back.
pub proof fn a_failure_ends_a_listener(
    before: TablesView,
    after: TablesView,
    actions: Seq<Action>,
    actions_after: Seq<Action>,
    token: ListenerToken,
    error: Error,
)
    requires
        listener_ended(
            before,
            after,
            actions,
            actions_after,
            token,
            MemoizedTerminalResult::Failed(error),
        ),
    ensures
        ({
            let old_view = before.cm.listeners.entry(token)@;
            let new_view = after.cm.listeners.entry(token)@;
            &&& after.cm.listeners.has(token)
            &&& new_view.closing
            &&& !new_view.admission.open
            &&& new_view.waiters.len() == 0
            &&& new_view.children == old_view.children
            &&& new_view.selected == old_view.selected
            &&& new_view.close.outcome == if old_view.close.outcome is Some {
                old_view.close.outcome
            } else {
                Some(MemoizedTerminalResult::Failed(error))
            }
            &&& new_view.has_work(after.accepts.entries) ==> new_view.work_enqueued
            &&& new_view.has_work(after.accepts.entries) && !old_view.work_enqueued
                ==> after.cm.listener_work =~= before.cm.listener_work + seq![token]
            &&& forall|i: int|
                #![trigger old_view.waiters[i]]
                0 <= i < old_view.waiters.len() && before.accepts.entries.contains_key(
                    old_view.waiters[i],
                ) ==> {
                    let old_request = before.accepts.entries[old_view.waiters[i]];
                    let new_request = after.accepts.entries[old_view.waiters[i]];
                    &&& new_request.permit is None
                    &&& !(new_request.result is Pending)
                }
        }),
        after.connections == before.connections,
        after.connects == before.connects,
        after.listens == before.listens,
{
    let old_view = before.cm.listeners.entry(token)@;
    let (start, begun) = ListenerEntry::terminal_start(
        old_view,
        MemoizedTerminalResult::Failed(error),
        actions,
    );
    let drain = WaiterDrain {
        waiters: start.waiters,
        requests: before.accepts,
        actions: begun,
        processed: 0,
    };
    drained_waiters_are_answered(drain, error);
    assert forall|i: int|
        #![trigger old_view.waiters[i]]
        0 <= i < old_view.waiters.len() && before.accepts.entries.contains_key(
            old_view.waiters[i],
        ) implies {
        let new_request = after.accepts.entries[old_view.waiters[i]];
        &&& new_request.permit is None
        &&& !(new_request.result is Pending)
    } by {
        assert(drain.waiters[i] == old_view.waiters[i]);
    }
}

} // verus!
