//! The bounded shutdown of connects, listens and listeners.

use vstd::prelude::*;
use vstd::seq_lib::lemma_multiset_commutative;

use std::collections::HashSet;

use crate::actions::{Action, ReactorActions, CM_STEP_RESERVE, REACTOR_ACTION_BUDGET};
use crate::admission::ConnectionReservation;
use crate::cm::{CmState, CmView};
use crate::error::Error;
use crate::listen::{listen_completed, listen_woken};
use crate::listen::complete_listen;
use crate::listener::{ListenerEntry, ListenerView, WaiterDrain};
use crate::registry::{ConnectionRegistry, RegistryView};
use crate::requests::{AcceptRequest, OutboundRequest};
use crate::slots::{SlotRegistry, SlotsView};
use crate::tables::{SessionTables, TablesView};
use crate::terminal::{MemoizedTerminalResult, TakeOnceResult};
use crate::token::{ConnectionToken, ListenerToken, RequestToken, SlotToken};

verus! {

/// The kinds of shutdown work.
#[derive(Clone, Copy, Debug, PartialEq, Eq, Structural)]
pub enum CmShutdownClass {
    PendingOutbound,
    Routes,
    PendingListen,
    Listeners,
    RetainedListeners,
}

impl CmShutdownClass {
    pub open spec fn position(self) -> int {
        match self {
            CmShutdownClass::PendingOutbound => 0,
            CmShutdownClass::Routes => 1,
            CmShutdownClass::PendingListen => 2,
            CmShutdownClass::Listeners => 3,
            CmShutdownClass::RetainedListeners => 4,
        }
    }

    pub fn index(self) -> (index: usize)
        ensures
            index == self.position(),
            index < 5,
    {
        match self {
            CmShutdownClass::PendingOutbound => 0,
            CmShutdownClass::Routes => 1,
            CmShutdownClass::PendingListen => 2,
            CmShutdownClass::Listeners => 3,
            CmShutdownClass::RetainedListeners => 4,
        }
    }
}

/// How much of each kind of shutdown work one turn may do.
#[derive(Clone, Copy, Debug)]
pub struct CmShutdownSnapshot {
    pub limits: [usize; 5],
}

impl CmShutdownSnapshot {
    pub fn count(self, class: CmShutdownClass) -> (count: usize)
        ensures
            count == self.limits@[class.position()],
    {
        self.limits[class.index()]
    }
}

/// The progress of a shutdown, as contracts speak of it.
#[verifier::ext_equal]
pub struct CursorView {
    pub route_slot: usize,
    pub listener_slot: usize,
    pub routes_complete: bool,
    pub listeners_complete: bool,
    pub destructions_remaining: Option<usize>,
    pub destructions_complete: bool,
    pub terminalized: Set<u64>,
}

/// The progress of a shutdown.
pub struct CmShutdownCursor {
    pub route_slot: usize,
    pub listener_slot: usize,
    pub routes_complete: bool,
    pub listeners_complete: bool,
    pub destruction_listeners_remaining: Option<usize>,
    pub destruction_listeners_complete: bool,
    pub terminalized_listeners: HashSet<u64>,
}

impl CmShutdownCursor {
    pub open spec fn view(&self) -> CursorView {
        CursorView {
            route_slot: self.route_slot,
            listener_slot: self.listener_slot,
            routes_complete: self.routes_complete,
            listeners_complete: self.listeners_complete,
            destructions_remaining: self.destruction_listeners_remaining,
            destructions_complete: self.destruction_listeners_complete,
            terminalized: self.terminalized_listeners@,
        }
    }

    pub open spec fn start() -> CursorView {
        CursorView {
            route_slot: 0,
            listener_slot: 0,
            routes_complete: false,
            listeners_complete: false,
            destructions_remaining: None,
            destructions_complete: false,
            terminalized: Set::empty(),
        }
    }

    pub fn new() -> (cursor: Self)
        ensures
            cursor@ == Self::start(),
    {
        broadcast use vstd::std_specs::hash::group_hash_axioms;

        CmShutdownCursor {
            route_slot: 0,
            listener_slot: 0,
            routes_complete: false,
            listeners_complete: false,
            destruction_listeners_remaining: None,
            destruction_listeners_complete: false,
            terminalized_listeners: HashSet::new(),
        }
    }
}

/// The smaller of a count and a budget.
pub open spec fn limited(count: nat, budget: usize) -> usize {
    if count <= budget {
        count as usize
    } else {
        budget
    }
}

/// How many retained listeners a failing shutdown still looks at.
pub open spec fn retained_limit(cm: CmView, cursor: CursorView, terminalize: bool) -> nat {
    if terminalize && !cursor.destructions_complete {
        let remaining = match cursor.destructions_remaining {
            Some(count) => count as nat,
            None => cm.destructions.len(),
        };
        if remaining == 0 {
            1
        } else {
            remaining
        }
    } else {
        0
    }
}

fn min(count: usize, budget: usize) -> (limit: usize)
    ensures
        limit == limited(count as nat, budget),
{
    if count < budget {
        count
    } else {
        budget
    }
}

/// What one turn of the shutdown may do.
pub fn snapshot(
    cm: &CmState,
    connections: &ConnectionRegistry,
    terminalize_listeners: bool,
    cursor: &CmShutdownCursor,
    budget: usize,
) -> (limits: CmShutdownSnapshot)
    requires
        connections.wf(),
    ensures
        limits.limits@[0] == limited(connections@.pending_outbound.len(), budget),
        limits.limits@[1] == if cursor@.routes_complete {
            0
        } else {
            budget
        },
        limits.limits@[2] == limited(cm@.pending_listens.len(), budget),
        limits.limits@[3] == if cursor@.listeners_complete {
            0
        } else {
            budget
        },
        limits.limits@[4] == limited(
            retained_limit(cm@, cursor@, terminalize_listeners),
            budget,
        ),
{
    let retained: usize = if terminalize_listeners && !cursor.destruction_listeners_complete {
        let remaining: usize = match cursor.destruction_listeners_remaining {
            Some(count) => count,
            None => cm.cm_destructions.len(),
        };
        if remaining == 0 {
            1
        } else {
            remaining
        }
    } else {
        0
    };
    let routes: usize = if cursor.routes_complete {
        0
    } else {
        budget
    };
    let listeners: usize = if cursor.listeners_complete {
        0
    } else {
        budget
    };
    CmShutdownSnapshot {
        limits: [
            min(connections.pending_outbound_count(), budget),
            routes,
            min(cm.pending_listens.len(), budget),
            listeners,
            min(retained, budget),
        ],
    }
}

/// Whether the shutdown has asked everything to end.
pub open spec fn issuance_complete(
    cm: CmView,
    connections: RegistryView,
    cursor: CursorView,
) -> bool {
    cursor.routes_complete && cursor.listeners_complete && cursor.destructions_complete
        && connections.pending_outbound.len() == 0 && cm.pending_listens.len() == 0
}

pub fn complete(cm: &CmState, connections: &ConnectionRegistry, cursor: &CmShutdownCursor) -> (done:
    bool)
    requires
        connections.wf(),
    ensures
        done == issuance_complete(cm@, connections@, cursor@),
{
    cursor.routes_complete && cursor.listeners_complete && cursor.destruction_listeners_complete
        && connections.pending_outbound_count() == 0 && cm.pending_listens.len() == 0
}

/// The table after one connect request was cancelled with `error`.
pub open spec fn connect_ended(
    connects: SlotsView<OutboundRequest>,
    request: RequestToken,
    error: Error,
) -> SlotsView<OutboundRequest> {
    if connects.entries.contains_key(request) {
        connects.set(
            request,
            OutboundRequest {
                completion: connects.entries[request].completion.cancelled_with(error),
                ..connects.entries[request]
            },
        )
    } else {
        connects
    }
}

/// The publications after one connect request was cancelled: its waiter is woken,
/// unless it has an error or has taken its result already.
pub open spec fn connect_end_woken(
    connects: SlotsView<OutboundRequest>,
    request: RequestToken,
    actions: Seq<Action>,
) -> Seq<Action> {
    if connects.entries.contains_key(request) {
        match connects.entries[request].completion.result {
            TakeOnceResult::Pending => actions.push(Action::WakeConnect { request }),
            TakeOnceResult::Ready(Ok(_)) => actions.push(Action::WakeConnect { request }),
            _ => actions,
        }
    } else {
        actions
    }
}

/// Cancels a connect request, if the table still holds it.
pub fn cancel_connect(
    connects: &mut SlotRegistry<OutboundRequest>,
    request: RequestToken,
    error: Error,
    actions: &mut ReactorActions,
)
    requires
        old(connects).wf(),
    ensures
        final(connects).wf(),
        final(connects)@ == connect_ended(old(connects)@, request, error),
        final(connects).spent() == old(connects).spent(),
        final(actions)@ == connect_end_woken(old(connects)@, request, old(actions)@),
{
    if let Some(value) = connects.get_mut(request) {
        let wakes: bool = match &value.completion.result {
            TakeOnceResult::Pending | TakeOnceResult::Ready(Ok(_)) => true,
            _ => false,
        };
        let _ = value.completion.cancel(error);
        if wakes {
            actions.push(Action::WakeConnect { request });
        }
    }
}

/// The tables, the publications and the progress of a shutdown.
#[verifier::ext_equal]
pub struct ShutdownView {
    pub tables: TablesView,
    pub actions: Seq<Action>,
    pub cursor: CursorView,
}

/// How one unit of shutdown work ends.
#[derive(Clone, Copy, Debug, PartialEq, Eq, Structural)]
pub enum UnitEnd {
    /// One unit was done, and there may be more.
    Next,
    /// One unit was done, and this turn is over.
    Last,
    /// Nothing was left to do.
    Stop,
}

impl UnitEnd {
    /// How many units this counts for.
    pub open spec fn units(self) -> nat {
        match self {
            UnitEnd::Next => 1,
            UnitEnd::Last => 1,
            UnitEnd::Stop => 0,
        }
    }

    /// Whether there may be more to do.
    pub open spec fn goes_on(self) -> bool {
        self is Next
    }
}

/// The oldest connect that was not started is cancelled.
pub open spec fn pending_outbound_unit(
    before: ShutdownView,
    after: ShutdownView,
    error: Error,
    end: UnitEnd,
) -> bool {
    let pending = before.tables.connections.pending_outbound;
    if pending.len() == 0 {
        end == UnitEnd::Stop && after == before
    } else {
        let request = pending[0].0;
        &&& end == UnitEnd::Next
        &&& after == (ShutdownView {
            tables: TablesView {
                connections: RegistryView {
                    pending_outbound: pending.skip(1),
                    ..before.tables.connections
                },
                connects: connect_ended(before.tables.connects, request, error),
                ..before.tables
            },
            actions: connect_end_woken(before.tables.connects, request, before.actions),
            ..before
        })
    }
}

fn shutdown_pending_outbound(
    tables: &mut SessionTables,
    error: Error,
    actions: &mut ReactorActions,
) -> (end: UnitEnd)
    requires
        old(tables).wf(),
    ensures
        final(tables).wf(),
        forall|cursor: CursorView| #[trigger]
            pending_outbound_unit(
                ShutdownView { tables: old(tables)@, actions: old(actions)@, cursor },
                ShutdownView { tables: final(tables)@, actions: final(actions)@, cursor },
                error,
                end,
            ),
{
    match tables.connections.pop_outbound() {
        Some((request, _)) => {
            cancel_connect(&mut tables.connects, request, error, actions);
            UnitEnd::Next
        },
        None => UnitEnd::Stop,
    }
}

/// The connect that an outbound route among `tokens` still works for is cancelled,
/// and its cancellation is queued.
pub open spec fn route_ended(
    before: ShutdownView,
    tokens: Seq<ConnectionToken>,
    error: Error,
) -> ShutdownView {
    if tokens.len() == 0 {
        before
    } else {
        match before.tables.connections.outbound_route(tokens[0]).state.waiting_request() {
            Some(request) if before.tables.connections.outbound(tokens[0]) => ShutdownView {
                tables: TablesView {
                    connections: RegistryView {
                        cancellations: before.tables.connections.cancellations.push(request),
                        ..before.tables.connections
                    },
                    connects: connect_ended(before.tables.connects, request, error),
                    ..before.tables
                },
                actions: connect_end_woken(before.tables.connects, request, before.actions),
                ..before
            },
            _ => before,
        }
    }
}

/// One slot is searched for an outbound route, whose connect is cancelled.
pub open spec fn routes_unit(
    before: ShutdownView,
    after: ShutdownView,
    error: Error,
    end: UnitEnd,
) -> bool {
    let slots = before.tables.connections.slots;
    let slot = before.cursor.route_slot;
    if before.cursor.routes_complete {
        end == UnitEnd::Stop && after == before
    } else if before.tables.connections.routed().len() == 0 || slot >= slots.marks.len() {
        &&& end == UnitEnd::Stop
        &&& after == (ShutdownView {
            cursor: CursorView { routes_complete: true, ..before.cursor },
            ..before
        })
    } else {
        let tokens = slots.occupied_between(slot as int, slot + 1).filter(
            |token: SlotToken| before.tables.connections.outbound(token),
        );
        let moved = ShutdownView {
            cursor: CursorView {
                route_slot: (slot + 1) as usize,
                routes_complete: slot + 1 >= slots.marks.len(),
                ..before.cursor
            },
            ..before
        };
        &&& end == UnitEnd::Next
        &&& after == route_ended(moved, tokens, error)
    }
}

proof fn one_slot_holds_one_route(view: RegistryView, slot: int)
    requires
        0 <= slot < view.slots.marks.len() <= u32::MAX,
    ensures
        view.slots.occupied_between(slot, slot + 1).filter(
            |token: SlotToken| view.outbound(token),
        ).len() <= 1,
{
    view.slots.occupied_are_bounded(slot, slot + 1);
    let tokens = view.slots.occupied_between(slot, slot + 1);
    tokens.lemma_filter_len(|token: SlotToken| view.outbound(token));
}

fn shutdown_routes(
    tables: &mut SessionTables,
    cursor: &mut CmShutdownCursor,
    error: Error,
    actions: &mut ReactorActions,
) -> (end: UnitEnd)
    requires
        old(tables).wf(),
    ensures
        final(tables).wf(),
        routes_unit(
            ShutdownView { tables: old(tables)@, actions: old(actions)@, cursor: old(cursor)@ },
            ShutdownView { tables: final(tables)@, actions: final(actions)@, cursor: final(cursor)@ },
            error,
            end,
        ),
{
    if cursor.routes_complete {
        return UnitEnd::Stop;
    }
    let (routes, next, complete, scanned): (Vec<ConnectionToken>, usize, bool, usize) =
        tables.connections.scan_outbound_routes(cursor.route_slot, 1);
    cursor.route_slot = next;
    cursor.routes_complete = complete;
    if scanned == 0 {
        return UnitEnd::Stop;
    }
    proof {
        tables.connections.slots_are_few();
        one_slot_holds_one_route(old(tables)@.connections, old(cursor).route_slot as int);
    }
    if routes.len() > 0 {
        if let Some(request) = tables.connections.outbound_request(routes[0]) {
            cancel_connect(&mut tables.connects, request, error, actions);
            tables.connections.enqueue_cancellation(request);
        }
    }
    UnitEnd::Next
}

/// The oldest listen that was not started fails, and its place is given back.
pub open spec fn pending_listen_unit(
    before: ShutdownView,
    after: ShutdownView,
    error: Error,
    end: UnitEnd,
) -> bool {
    let pending = before.tables.cm.pending_listens;
    if pending.len() == 0 {
        end == UnitEnd::Stop && after == before
    } else {
        let (listener, request) = pending[0];
        &&& end == UnitEnd::Next
        &&& after == (ShutdownView {
            tables: TablesView {
                cm: (CmView {
                    pending_listens: pending.skip(1),
                    ..before.tables.cm
                }).without_listener(listener, false),
                listens: listen_completed(before.tables.listens, request, Err(error)),
                ..before.tables
            },
            actions: listen_woken(before.tables.listens, request, before.actions),
            ..before
        })
    }
}

fn shutdown_pending_listen(
    tables: &mut SessionTables,
    error: Error,
    actions: &mut ReactorActions,
) -> (end: UnitEnd)
    requires
        old(tables).wf(),
    ensures
        final(tables).wf(),
        forall|cursor: CursorView| #[trigger]
            pending_listen_unit(
                ShutdownView { tables: old(tables)@, actions: old(actions)@, cursor },
                ShutdownView { tables: final(tables)@, actions: final(actions)@, cursor },
                error,
                end,
            ),
{
    match tables.cm.pending_listens.pop_front() {
        Some((listener, request)) => {
            assert(tables.cm@.pending_listens =~= old(tables)@.cm.pending_listens.skip(1));
            complete_listen(&mut tables.listens, request, Err(error), actions);
            let _ = tables.cm.release_listener(listener, false);
            UnitEnd::Next
        },
        None => UnitEnd::Stop,
    }
}

/// One waiter of a listener failed with the engine's outcome, as far as it fits.
pub open spec fn waiter_ended(
    view: ListenerView,
    accepts: SlotsView<AcceptRequest>,
    actions: Seq<Action>,
    outcome: MemoizedTerminalResult,
) -> (ListenerView, SlotsView<AcceptRequest>, Seq<Action>) {
    let (start, begun) = ListenerEntry::terminal_start(view, outcome, actions);
    let end = (WaiterDrain {
        waiters: start.waiters,
        requests: accepts,
        actions: begun,
        processed: 0,
    }).drained(1, outcome->Failed_0).selected_failed(view.selected, 1, outcome->Failed_0);
    (ListenerView { waiters: end.waiters, ..start }, end.requests, end.actions)
}

/// The error that listeners end with; an engine that ends in order shuts them down.
pub open spec fn ending_error(outcome: MemoizedTerminalResult) -> Error {
    match outcome {
        MemoizedTerminalResult::Failed(error) => error,
        MemoizedTerminalResult::Success => Error::DriverShutdown,
    }
}

/// Whether a kind of shutdown work can be done with this outcome: only an orderly end
/// of listeners takes a success.
pub open spec fn outcome_fits(
    outcome: MemoizedTerminalResult,
    class: CmShutdownClass,
    terminalize: bool,
) -> bool {
    outcome is Failed || !terminalize && (class is Listeners || class is RetainedListeners)
}

/// The listener once its admission was closed for the outcome of the engine.
pub open spec fn admission_ended(view: ListenerView, outcome: MemoizedTerminalResult) -> ListenerView {
    ListenerView { admission: view.admission.closed_with(ending_error(outcome)), ..view }
}

/// One slot is searched for a listener, which is closed. In a failing shutdown its
/// waiters end first, one at a time.
pub open spec fn listeners_unit(
    before: ShutdownView,
    after: ShutdownView,
    outcome: MemoizedTerminalResult,
    terminalize: bool,
    end: UnitEnd,
) -> bool {
    let slots = before.tables.cm.listeners.slots;
    let slot = before.cursor.listener_slot;
    if before.cursor.listeners_complete {
        end == UnitEnd::Stop && after == before
    } else if slot >= slots.marks.len() {
        &&& end == UnitEnd::Stop
        &&& after == (ShutdownView {
            cursor: CursorView { listeners_complete: true, ..before.cursor },
            ..before
        })
    } else {
        let tokens = slots.occupied_between(slot as int, slot + 1);
        let moved = CursorView {
            listener_slot: (slot + 1) as usize,
            listeners_complete: slot + 1 >= slots.marks.len(),
            ..before.cursor
        };
        if tokens.len() == 0 {
            end == UnitEnd::Next && after == (ShutdownView { cursor: moved, ..before })
        } else {
            listener_unit(before, after, tokens[0], moved, outcome, terminalize, end)
        }
    }
}

/// One listener is closed; `moved` is the progress of the search behind it. Of its
/// waiters only the oldest ends; while others remain, the search stays with it.
pub open spec fn listener_unit(
    before: ShutdownView,
    after: ShutdownView,
    token: ListenerToken,
    moved: CursorView,
    outcome: MemoizedTerminalResult,
    terminalize: bool,
    end: UnitEnd,
) -> bool {
    let cm = before.tables.cm;
    let closed = admission_ended(cm.listeners.entry(token)@, outcome);
    let key = token.encoded() as u64;
    let drains = terminalize && !before.cursor.terminalized.contains(key);
    let (drained, accepts, actions) = if drains {
        waiter_ended(closed, before.tables.accepts, before.actions, outcome)
    } else {
        (closed, before.tables.accepts, before.actions)
    };
    if drains && drained.waiters.len() > 0 {
        &&& end == UnitEnd::Next
        &&& after == (ShutdownView {
            tables: TablesView {
                cm: CmView { listeners: after.tables.cm.listeners, ..cm },
                accepts,
                ..before.tables
            },
            actions,
            cursor: CursorView {
                listener_slot: token.slot as usize,
                listeners_complete: false,
                ..moved
            },
        })
        &&& cm.listeners.becomes(after.tables.cm.listeners, token, drained)
    } else {
        let ending = ListenerEntry::close_requested(drained);
        let queues = !drained.closing || drained.has_work(accepts.entries);
        &&& end == UnitEnd::Next
        &&& after == (ShutdownView {
            tables: TablesView {
                cm: CmView {
                    listeners: after.tables.cm.listeners,
                    listener_work: if queues && !ending.work_enqueued {
                        cm.listener_work.push(token)
                    } else {
                        cm.listener_work
                    },
                    ..cm
                },
                accepts,
                ..before.tables
            },
            actions,
            cursor: CursorView {
                terminalized: if drains {
                    moved.terminalized.insert(key)
                } else {
                    moved.terminalized
                },
                ..moved
            },
        })
        &&& cm.listeners.becomes(
            after.tables.cm.listeners,
            token,
            ListenerView { work_enqueued: ending.work_enqueued || queues, ..ending },
        )
    }
}

fn shutdown_listeners(
    tables: &mut SessionTables,
    cursor: &mut CmShutdownCursor,
    outcome: &MemoizedTerminalResult,
    terminalize: bool,
    actions: &mut ReactorActions,
) -> (end: UnitEnd)
    requires
        old(tables).wf(),
        *outcome is Failed || !terminalize,
    ensures
        final(tables).wf(),
        listeners_unit(
            ShutdownView { tables: old(tables)@, actions: old(actions)@, cursor: old(cursor)@ },
            ShutdownView { tables: final(tables)@, actions: final(actions)@, cursor: final(cursor)@ },
            *outcome,
            terminalize,
            end,
        ),
{
    if cursor.listeners_complete {
        return UnitEnd::Stop;
    }
    let (tokens, next, complete, scanned): (Vec<ListenerToken>, usize, bool, usize) =
        tables.cm.listeners.scan_occupied(cursor.listener_slot, 1);
    cursor.listener_slot = next;
    cursor.listeners_complete = complete;
    if scanned == 0 {
        return UnitEnd::Stop;
    }
    if tokens.len() == 0 {
        return UnitEnd::Next;
    }
    proof {
        tables.cm.listeners.scanned_are_found();
        tables.cm@.listeners.slots.occupied_are_bounded(
            old(cursor).listener_slot as int,
            old(cursor).listener_slot + 1,
        );
    }
    close_listener(tables, cursor, tokens[0], outcome, terminalize, actions)
}

fn close_listener(
    tables: &mut SessionTables,
    cursor: &mut CmShutdownCursor,
    token: ListenerToken,
    outcome: &MemoizedTerminalResult,
    terminalize: bool,
    actions: &mut ReactorActions,
) -> (end: UnitEnd)
    requires
        old(tables).wf(),
        *outcome is Failed || !terminalize,
        old(tables)@.cm.listeners.has(token),
    ensures
        final(tables).wf(),
        listener_unit(
            ShutdownView { tables: old(tables)@, actions: old(actions)@, cursor: old(cursor)@ },
            ShutdownView { tables: final(tables)@, actions: final(actions)@, cursor: final(cursor)@ },
            token,
            old(cursor)@,
            *outcome,
            terminalize,
            end,
        ),
{
    broadcast use vstd::std_specs::hash::group_hash_axioms;

    let error = match outcome {
        MemoizedTerminalResult::Failed(error) => error.clone(),
        MemoizedTerminalResult::Success => Error::DriverShutdown,
    };
    let key: u64 = token.encode();
    let drains: bool = terminalize && !cursor.terminalized_listeners.contains(&key);
    let ghost listeners = tables@.cm.listeners;
    let mut remain: bool = false;
    let mut queues: bool = false;
    if let Some(listener) = tables.cm.listeners.get_mut(token) {
        listener.close_accept_admission(error);
        if drains {
            let _ = listener.terminalize_waiters_into(outcome, &mut tables.accepts, actions, 1);
            remain = listener.has_waiters();
        }
        if !remain {
            let first: bool = listener.request_close();
            queues = first || listener.has_work(&tables.accepts);
        }
    }
    if remain {
        cursor.listener_slot = token.slot as usize;
        cursor.listeners_complete = false;
        return UnitEnd::Next;
    }
    if drains {
        cursor.terminalized_listeners.insert(key);
    }
    if queues {
        tables.cm.enqueue_listener_work(token);
    }
    assert(tables@.cm.listeners.slots.entries =~= listeners.slots.entries.insert(
        token,
        tables@.cm.listeners.entry(token),
    ));
    UnitEnd::Next
}

/// One deferred destruction is looked at; the listener it belongs to is ended, one
/// waiter at a time.
pub open spec fn retained_unit(
    before: ShutdownView,
    after: ShutdownView,
    outcome: MemoizedTerminalResult,
    terminalize: bool,
    end: UnitEnd,
) -> bool {
    let cm = before.tables.cm;
    let remaining = match before.cursor.destructions_remaining {
        Some(count) => count as nat,
        None => cm.destructions.len(),
    };
    if !terminalize || before.cursor.destructions_complete {
        end == UnitEnd::Stop && after == before
    } else if remaining == 0 || cm.destructions.len() == 0 {
        &&& end == UnitEnd::Stop
        &&& after == (ShutdownView {
            cursor: CursorView {
                destructions_remaining: Some(0),
                destructions_complete: true,
                ..before.cursor
            },
            ..before
        })
    } else {
        let rotated = CmView {
            destructions: cm.destructions.skip(1).push(cm.destructions[0]),
            ..cm
        };
        let moved = CursorView {
            destructions_remaining: Some((remaining - 1) as usize),
            destructions_complete: remaining == 1,
            ..before.cursor
        };
        match cm.destructions[0].owning_listener() {
            Some(listener) if !before.cursor.terminalized.contains(
                listener.encoded() as u64,
            ) => retained_listener_unit(
                before,
                after,
                rotated,
                listener,
                moved,
                remaining as usize,
                outcome,
                end,
            ),
            _ => {
                &&& end == UnitEnd::Next
                &&& after == (ShutdownView {
                    tables: TablesView { cm: rotated, ..before.tables },
                    cursor: moved,
                    ..before
                })
            },
        }
    }
}

/// One waiter of a retained listener ends; the listener is done once none waits.
pub open spec fn retained_listener_unit(
    before: ShutdownView,
    after: ShutdownView,
    rotated: CmView,
    listener: ListenerToken,
    moved: CursorView,
    remaining: usize,
    outcome: MemoizedTerminalResult,
    end: UnitEnd,
) -> bool {
    let done = CursorView {
        terminalized: moved.terminalized.insert(listener.encoded() as u64),
        ..moved
    };
    if !rotated.listeners.has(listener) {
        &&& end == UnitEnd::Next
        &&& after == (ShutdownView {
            tables: TablesView { cm: rotated, ..before.tables },
            cursor: done,
            ..before
        })
    } else {
        let (drained, accepts, actions) = waiter_ended(
            rotated.listeners.entry(listener)@,
            before.tables.accepts,
            before.actions,
            outcome,
        );
        &&& rotated.listeners.becomes(after.tables.cm.listeners, listener, drained)
        &&& end == if drained.waiters.len() == 0 {
            UnitEnd::Next
        } else {
            UnitEnd::Last
        }
        &&& after == (ShutdownView {
            tables: TablesView {
                cm: CmView { listeners: after.tables.cm.listeners, ..rotated },
                accepts,
                ..before.tables
            },
            actions,
            cursor: if drained.waiters.len() == 0 {
                done
            } else {
                CursorView { destructions_remaining: Some(remaining), ..moved }
            },
        })
    }
}

fn shutdown_retained(
    tables: &mut SessionTables,
    cursor: &mut CmShutdownCursor,
    outcome: &MemoizedTerminalResult,
    terminalize: bool,
    actions: &mut ReactorActions,
) -> (end: UnitEnd)
    requires
        old(tables).wf(),
        *outcome is Failed || !terminalize,
    ensures
        final(tables).wf(),
        retained_unit(
            ShutdownView { tables: old(tables)@, actions: old(actions)@, cursor: old(cursor)@ },
            ShutdownView { tables: final(tables)@, actions: final(actions)@, cursor: final(cursor)@ },
            *outcome,
            terminalize,
            end,
        ),
{
    broadcast use vstd::std_specs::hash::group_hash_axioms;

    if !terminalize || cursor.destruction_listeners_complete {
        return UnitEnd::Stop;
    }
    let remaining: usize = match cursor.destruction_listeners_remaining {
        Some(count) => count,
        None => tables.cm.cm_destructions.len(),
    };
    if remaining == 0 {
        cursor.destruction_listeners_remaining = Some(0);
        cursor.destruction_listeners_complete = true;
        return UnitEnd::Stop;
    }
    let owner = match tables.cm.cm_destructions.pop_front() {
        None => {
            cursor.destruction_listeners_remaining = Some(0);
            cursor.destruction_listeners_complete = true;
            return UnitEnd::Stop;
        },
        Some(pending) => {
            let owner = pending.listener();
            tables.cm.cm_destructions.push_back(pending);
            owner
        },
    };
    let ghost before = old(tables)@.cm.destructions;
    assert(tables@.cm.destructions =~= before.skip(1).push(before[0]));
    cursor.destruction_listeners_remaining = Some(remaining - 1);
    if remaining == 1 {
        cursor.destruction_listeners_complete = true;
    }
    if let Some(listener) = owner {
        let key: u64 = listener.encode();
        if !cursor.terminalized_listeners.contains(&key) {
            let mut waiting: bool = false;
            if let Some(entry) = tables.cm.listeners.get_mut(listener) {
                let _ = entry.terminalize_waiters_into(outcome, &mut tables.accepts, actions, 1);
                waiting = entry.has_waiters();
            }
            if waiting {
                cursor.destruction_listeners_remaining = Some(remaining);
                return UnitEnd::Last;
            }
            cursor.terminalized_listeners.insert(key);
        }
    }
    UnitEnd::Next
}

/// Whether one unit of a kind of shutdown work led from one state to another.
#[verifier::opaque]
pub open spec fn shutdown_unit(
    before: ShutdownView,
    after: ShutdownView,
    class: CmShutdownClass,
    outcome: MemoizedTerminalResult,
    terminalize: bool,
    end: UnitEnd,
) -> bool {
    let error = outcome->Failed_0;
    match class {
        CmShutdownClass::PendingOutbound => pending_outbound_unit(before, after, error, end),
        CmShutdownClass::Routes => routes_unit(before, after, error, end),
        CmShutdownClass::PendingListen => pending_listen_unit(before, after, error, end),
        CmShutdownClass::Listeners => listeners_unit(before, after, outcome, terminalize, end),
        CmShutdownClass::RetainedListeners => retained_unit(
            before,
            after,
            outcome,
            terminalize,
            end,
        ),
    }
}

fn serve_unit(
    tables: &mut SessionTables,
    cursor: &mut CmShutdownCursor,
    class: CmShutdownClass,
    outcome: &MemoizedTerminalResult,
    terminalize: bool,
    actions: &mut ReactorActions,
) -> (end: UnitEnd)
    requires
        old(tables).wf(),
        outcome_fits(*outcome, class, terminalize),
    ensures
        final(tables).wf(),
        shutdown_unit(
            ShutdownView { tables: old(tables)@, actions: old(actions)@, cursor: old(cursor)@ },
            ShutdownView { tables: final(tables)@, actions: final(actions)@, cursor: final(cursor)@ },
            class,
            *outcome,
            terminalize,
            end,
        ),
{
    let error = match outcome {
        MemoizedTerminalResult::Failed(error) => error.clone(),
        MemoizedTerminalResult::Success => Error::DriverShutdown,
    };
    proof {
        reveal(shutdown_unit);
    }
    match class {
        CmShutdownClass::PendingOutbound => shutdown_pending_outbound(tables, error, actions),
        CmShutdownClass::Routes => shutdown_routes(tables, cursor, error, actions),
        CmShutdownClass::PendingListen => shutdown_pending_listen(tables, error, actions),
        CmShutdownClass::Listeners => shutdown_listeners(
            tables,
            cursor,
            outcome,
            terminalize,
            actions,
        ),
        CmShutdownClass::RetainedListeners => shutdown_retained(
            tables,
            cursor,
            outcome,
            terminalize,
            actions,
        ),
    }
}

/// How many units were done.
pub open spec fn units_done(ends: Seq<UnitEnd>) -> nat
    decreases ends.len(),
{
    if ends.len() == 0 {
        0
    } else {
        units_done(ends.drop_last()) + ends.last().units()
    }
}

/// Whether a turn may begin another unit: its budget lasts, and there is room for
/// what a unit publishes.
pub open spec fn may_begin(ends: Seq<UnitEnd>, actions: Seq<Action>, budget: usize) -> bool {
    units_done(ends) < budget && actions.len() + CM_STEP_RESERVE <= REACTOR_ACTION_BUDGET
}

/// Whether the unit with number `i` of a turn could begin, led from its state to the
/// next one, and let the turn go on if another unit follows.
pub open spec fn run_step(
    states: Seq<ShutdownView>,
    ends: Seq<UnitEnd>,
    class: CmShutdownClass,
    outcome: MemoizedTerminalResult,
    terminalize: bool,
    budget: usize,
    i: int,
) -> bool {
    &&& may_begin(ends.take(i), states[i].actions, budget)
    &&& shutdown_unit(states[i], states[i + 1], class, outcome, terminalize, ends[i])
    &&& i + 1 < ends.len() ==> ends[i].goes_on()
}

/// Whether `states` are the states that a turn of shutdown work went through, its
/// units ending as `ends` says.
pub open spec fn shutdown_run(
    states: Seq<ShutdownView>,
    ends: Seq<UnitEnd>,
    class: CmShutdownClass,
    outcome: MemoizedTerminalResult,
    terminalize: bool,
    budget: usize,
) -> bool {
    &&& states.len() == ends.len() + 1
    &&& forall|i: int|
        0 <= i < ends.len() ==> #[trigger] run_step(
            states,
            ends,
            class,
            outcome,
            terminalize,
            budget,
            i,
        )
}

/// Whether a turn of shutdown work led from one state to another, doing `processed`
/// units: it went on until a unit ended it, or until it could not begin another.
pub open spec fn shutdown_served(
    before: ShutdownView,
    after: ShutdownView,
    class: CmShutdownClass,
    outcome: MemoizedTerminalResult,
    terminalize: bool,
    budget: usize,
    processed: usize,
) -> bool {
    exists|states: Seq<ShutdownView>, ends: Seq<UnitEnd>| #[trigger]
        shutdown_run(states, ends, class, outcome, terminalize, budget) && {
            &&& states[0] == (ShutdownView {
                cursor: CursorView {
                    destructions_complete: before.cursor.destructions_complete || !terminalize,
                    ..before.cursor
                },
                ..before
            })
            &&& states.last() == after
            &&& processed == units_done(ends)
            &&& (ends.len() > 0 && !ends.last().goes_on()) || !may_begin(
                ends,
                after.actions,
                budget,
            )
        }
}

proof fn run_extended(
    states: Seq<ShutdownView>,
    ends: Seq<UnitEnd>,
    after: ShutdownView,
    end: UnitEnd,
    class: CmShutdownClass,
    outcome: MemoizedTerminalResult,
    terminalize: bool,
    budget: usize,
)
    requires
        shutdown_run(states, ends, class, outcome, terminalize, budget),
        may_begin(ends, states.last().actions, budget),
        shutdown_unit(states.last(), after, class, outcome, terminalize, end),
        ends.len() == 0 || ends.last().goes_on(),
    ensures
        shutdown_run(states.push(after), ends.push(end), class, outcome, terminalize, budget),
        units_done(ends.push(end)) == units_done(ends) + end.units(),
{
    let grown = ends.push(end);
    let path = states.push(after);
    assert(grown.drop_last() =~= ends);
    assert forall|i: int| 0 <= i < grown.len() implies #[trigger] run_step(
        path,
        grown,
        class,
        outcome,
        terminalize,
        budget,
        i,
    ) by {
        if i == ends.len() {
            assert(grown.take(i) =~= ends);
        } else {
            assert(grown.take(i) =~= ends.take(i));
            assert(run_step(states, ends, class, outcome, terminalize, budget, i));
        }
    }
}

/// Does one kind of shutdown work, no more than `budget` units of it and only while
/// there is room for what a unit publishes.
pub fn service_class(
    tables: &mut SessionTables,
    outcome: &MemoizedTerminalResult,
    terminalize_listeners: bool,
    cursor: &mut CmShutdownCursor,
    class: CmShutdownClass,
    budget: usize,
    actions: &mut ReactorActions,
) -> (processed: usize)
    requires
        old(tables).wf(),
        outcome_fits(*outcome, class, terminalize_listeners),
    ensures
        final(tables).wf(),
        processed <= budget,
        shutdown_served(
            ShutdownView { tables: old(tables)@, actions: old(actions)@, cursor: old(cursor)@ },
            ShutdownView {
                tables: final(tables)@,
                actions: final(actions)@,
                cursor: final(cursor)@,
            },
            class,
            *outcome,
            terminalize_listeners,
            budget,
            processed,
        ),
{
    if !terminalize_listeners {
        cursor.destruction_listeners_complete = true;
    }
    let mut processed: usize = 0;
    let ghost first = ShutdownView { tables: tables@, actions: actions@, cursor: cursor@ };
    let ghost mut states: Seq<ShutdownView> = seq![first];
    let ghost mut ends: Seq<UnitEnd> = Seq::empty();
    let mut going: bool = true;
    while going && processed < budget && actions.can_accept(CM_STEP_RESERVE)
        invariant
            tables.wf(),
            outcome_fits(*outcome, class, terminalize_listeners),
            processed <= budget,
            processed == units_done(ends),
            shutdown_run(states, ends, class, *outcome, terminalize_listeners, budget),
            states[0] == first,
            states.last() == (ShutdownView { tables: tables@, actions: actions@, cursor: cursor@ }),
            going <==> ends.len() == 0 || ends.last().goes_on(),
        decreases
            (if going {
                1int
            } else {
                0
            }),
            budget - processed,
    {
        let end = serve_unit(tables, cursor, class, outcome, terminalize_listeners, actions);
        match end {
            UnitEnd::Next => {
                processed = processed + 1;
            },
            UnitEnd::Last => {
                processed = processed + 1;
                going = false;
            },
            UnitEnd::Stop => {
                going = false;
            },
        }
        proof {
            let after = ShutdownView { tables: tables@, actions: actions@, cursor: cursor@ };
            run_extended(
                states,
                ends,
                after,
                end,
                class,
                *outcome,
                terminalize_listeners,
                budget,
            );
            ends = ends.push(end);
            states = states.push(after);
        }
    }
    processed
}

/// Marks the beginning of a shutdown: nothing new is started from here on.
pub fn start(cm: &mut CmState)
    requires
        old(cm).wf(),
    ensures
        final(cm).wf(),
        final(cm)@ == (CmView { shutting_down: true, ..old(cm)@ }),
{
    cm.shutting_down = true;
}

/// The connects that the outbound routes among `tokens` still work for.
pub open spec fn waiting_connects(view: RegistryView, tokens: Seq<ConnectionToken>) -> Seq<
    RequestToken,
>
    decreases tokens.len(),
{
    if tokens.len() == 0 {
        Seq::empty()
    } else {
        let rest = waiting_connects(view, tokens.drop_last());
        match view.outbound_route(tokens.last()).state.waiting_request() {
            Some(request) if view.outbound(tokens.last()) => rest.push(request),
            _ => rest,
        }
    }
}

/// The connect table after all of `requests` were cancelled, one after another.
pub open spec fn connects_ended(
    connects: SlotsView<OutboundRequest>,
    requests: Seq<RequestToken>,
    error: Error,
) -> SlotsView<OutboundRequest>
    decreases requests.len(),
{
    if requests.len() == 0 {
        connects
    } else {
        connect_ended(
            connects_ended(connects, requests.drop_last(), error),
            requests.last(),
            error,
        )
    }
}

/// The publications after all of `requests` were cancelled, one after another.
pub open spec fn connects_end_woken(
    connects: SlotsView<OutboundRequest>,
    requests: Seq<RequestToken>,
    error: Error,
    actions: Seq<Action>,
) -> Seq<Action>
    decreases requests.len(),
{
    if requests.len() == 0 {
        actions
    } else {
        connect_end_woken(
            connects_ended(connects, requests.drop_last(), error),
            requests.last(),
            connects_end_woken(connects, requests.drop_last(), error, actions),
        )
    }
}

/// Cancels connects, one after another.
fn cancel_connects(
    connects: &mut SlotRegistry<OutboundRequest>,
    requests: &Vec<RequestToken>,
    error: &Error,
    actions: &mut ReactorActions,
)
    requires
        old(connects).wf(),
    ensures
        final(connects).wf(),
        final(connects)@ == connects_ended(old(connects)@, requests@, *error),
        final(actions)@ == connects_end_woken(
            old(connects)@,
            requests@,
            *error,
            old(actions)@,
        ),
{
    let mut next: usize = 0;
    while next < requests.len()
        invariant
            connects.wf(),
            next <= requests.len(),
            connects@ == connects_ended(old(connects)@, requests@.take(next as int), *error),
            actions@ == connects_end_woken(
                old(connects)@,
                requests@.take(next as int),
                *error,
                old(actions)@,
            ),
        decreases requests.len() - next,
    {
        cancel_connect(connects, requests[next], error.clone(), actions);
        proof {
            assert(requests@.take(next + 1).drop_last() =~= requests@.take(next as int));
        }
        next = next + 1;
    }
    assert(requests@.take(next as int) =~= requests@);
}

/// The tables and the publications after every listen that was not started failed.
pub open spec fn listens_ended(
    tables: TablesView,
    actions: Seq<Action>,
    error: Error,
) -> (TablesView, Seq<Action>)
    decreases tables.cm.pending_listens.len(),
{
    if tables.cm.pending_listens.len() == 0 {
        (tables, actions)
    } else {
        let (listener, request) = tables.cm.pending_listens[0];
        listens_ended(
            TablesView {
                cm: (CmView {
                    pending_listens: tables.cm.pending_listens.skip(1),
                    ..tables.cm
                }).without_listener(listener, false),
                listens: listen_completed(tables.listens, request, Err(error)),
                ..tables
            },
            listen_woken(tables.listens, request, actions),
            error,
        )
    }
}

fn end_listens(tables: &mut SessionTables, error: &Error, actions: &mut ReactorActions)
    requires
        old(tables).wf(),
    ensures
        final(tables).wf(),
        (final(tables)@, final(actions)@) == listens_ended(old(tables)@, old(actions)@, *error),
{
    let mut going: bool = true;
    while going
        invariant
            tables.wf(),
            going ==> listens_ended(tables@, actions@, *error) == listens_ended(
                old(tables)@,
                old(actions)@,
                *error,
            ),
            !going ==> (tables@, actions@) == listens_ended(
                old(tables)@,
                old(actions)@,
                *error,
            ),
        decreases
            tables@.cm.pending_listens.len(),
            (if going {
                1int
            } else {
                0
            }),
    {
        let ghost here = tables@;
        let ghost told = actions@;
        let end = shutdown_pending_listen(tables, error.clone(), actions);
        proof {
            assert(pending_listen_unit(
                ShutdownView { tables: here, actions: told, cursor: CmShutdownCursor::start() },
                ShutdownView {
                    tables: tables@,
                    actions: actions@,
                    cursor: CmShutdownCursor::start(),
                },
                *error,
                end,
            ));
        }
        match end {
            UnitEnd::Stop => {
                going = false;
            },
            _ => {},
        }
    }
}

/// Whether `after` are the tables and publications once one listener was ended with
/// the engine's outcome: all its waiters failed, and it was queued for its close.
pub open spec fn listener_ended(
    before: TablesView,
    after: TablesView,
    actions: Seq<Action>,
    actions_after: Seq<Action>,
    token: ListenerToken,
    outcome: MemoizedTerminalResult,
) -> bool {
    let cm = before.cm;
    let (start, begun) = ListenerEntry::terminal_start(
        cm.listeners.entry(token)@,
        outcome,
        actions,
    );
    let end = (WaiterDrain {
        waiters: start.waiters,
        requests: before.accepts,
        actions: begun,
        processed: 0,
    }).all_drained(outcome->Failed_0).selected_ended(start.selected, outcome->Failed_0);
    let ended = ListenerView { waiters: end.waiters, ..start };
    let queues = ended.has_work(end.requests.entries) && !ended.work_enqueued;
    &&& actions_after == end.actions
    &&& after == (TablesView {
        cm: CmView {
            listeners: after.cm.listeners,
            listener_work: if queues {
                cm.listener_work.push(token)
            } else {
                cm.listener_work
            },
            ..cm
        },
        accepts: end.requests,
        ..before
    })
    &&& cm.listeners.becomes(
        after.cm.listeners,
        token,
        ListenerView {
            work_enqueued: ended.work_enqueued || ended.has_work(end.requests.entries),
            ..ended
        },
    )
}

fn end_listener(
    tables: &mut SessionTables,
    token: ListenerToken,
    outcome: &MemoizedTerminalResult,
    actions: &mut ReactorActions,
)
    requires
        old(tables).wf(),
        *outcome is Failed,
        old(tables)@.cm.listeners.has(token),
    ensures
        final(tables).wf(),
        listener_ended(
            old(tables)@,
            final(tables)@,
            old(actions)@,
            final(actions)@,
            token,
            *outcome,
        ),
        forall|other: ListenerToken| #[trigger]
            final(tables)@.cm.listeners.has(other) == old(tables)@.cm.listeners.has(other),
{
    let mut queues: bool = false;
    if let Some(listener) = tables.cm.listeners.get_mut(token) {
        listener.end_waiters_into(outcome, &mut tables.accepts, actions);
        queues = listener.has_work(&tables.accepts);
    }
    if queues {
        tables.cm.enqueue_listener_work(token);
    }
    assert(tables@.cm.listeners.slots.entries =~= old(tables)@.cm.listeners.slots.entries.insert(
        token,
        tables@.cm.listeners.entry(token),
    ));
}

/// Whether `states` are the tables and publications as the listeners `tokens` were
/// ended one after another.
pub open spec fn listeners_ended(
    states: Seq<(TablesView, Seq<Action>)>,
    tokens: Seq<ListenerToken>,
    outcome: MemoizedTerminalResult,
) -> bool {
    &&& states.len() == tokens.len() + 1
    &&& forall|i: int|
        #![trigger tokens[i]]
        0 <= i < tokens.len() ==> listener_ended(
            states[i].0,
            states[i + 1].0,
            states[i].1,
            states[i + 1].1,
            tokens[i],
            outcome,
        )
}

/// The tables after every connect that was not started was taken off its queue.
pub open spec fn outbound_dropped(tables: TablesView) -> TablesView {
    TablesView {
        connections: RegistryView { pending_outbound: Seq::empty(), ..tables.connections },
        ..tables
    }
}

/// All connects that wait: those of the routes, then those that were not started.
pub open spec fn all_connects(view: RegistryView) -> Seq<RequestToken> {
    waiting_connects(
        view,
        view.slots.occupied_between(0, view.slots.marks.len() as int).filter(
            |token: SlotToken| view.outbound(token),
        ),
    ) + view.pending_outbound.map_values(|pending: (RequestToken, ConnectionReservation)| pending.0)
}

/// Ends everything that waits with the engine's failure: connects first, then listens,
/// then the waiters of every listener. A successful outcome ends nothing.
pub fn terminalize_into(
    tables: &mut SessionTables,
    outcome: &MemoizedTerminalResult,
    actions: &mut ReactorActions,
)
    requires
        old(tables).wf(),
    ensures
        final(tables).wf(),
        match *outcome {
            MemoizedTerminalResult::Success => final(tables)@ == old(tables)@ && final(actions)@
                == old(actions)@,
            MemoizedTerminalResult::Failed(error) => {
                let requests = all_connects(old(tables)@.connections);
                let cancelled = TablesView {
                    connects: connects_ended(old(tables)@.connects, requests, error),
                    ..outbound_dropped(old(tables)@)
                };
                let listened = listens_ended(
                    cancelled,
                    connects_end_woken(old(tables)@.connects, requests, error, old(actions)@),
                    error,
                );
                let slots = listened.0.cm.listeners.slots;
                exists|states: Seq<(TablesView, Seq<Action>)>| #[trigger]
                    listeners_ended(
                        states,
                        slots.occupied_between(0, slots.marks.len() as int),
                        *outcome,
                    ) && states[0] == listened && states.last() == (
                        final(tables)@,
                        final(actions)@,
                    )
            },
        },
{
    let error = match outcome {
        MemoizedTerminalResult::Success => {
            return;
        },
        MemoizedTerminalResult::Failed(error) => error.clone(),
    };
    let requests = take_all_connects(&mut tables.connections);
    cancel_connects(&mut tables.connects, &requests, &error, actions);
    end_listens(tables, &error, actions);
    let ghost first = (tables@, actions@);
    let tokens = tables.cm.listeners.occupied();
    let ghost mut states: Seq<(TablesView, Seq<Action>)> = seq![first];
    proof {
        tables.cm.listeners.scanned_are_found();
        first.0.cm.listeners.slots.occupied_are_bounded(
            0,
            first.0.cm.listeners.slots.marks.len() as int,
        );
    }
    let mut next: usize = 0;
    while next < tokens.len()
        invariant
            tables.wf(),
            *outcome is Failed,
            next <= tokens.len(),
            states[0] == first,
            states.last() == (tables@, actions@),
            listeners_ended(states, tokens@.take(next as int), *outcome),
            forall|i: int|
                0 <= i < tokens@.len() ==> tables@.cm.listeners.has(#[trigger] tokens@[i]),
        decreases tokens.len() - next,
    {
        let ghost before = states;
        end_listener(tables, tokens[next], outcome, actions);
        proof {
            let taken = tokens@.take(next as int);
            let grown = tokens@.take(next + 1);
            assert(grown =~= taken.push(tokens@[next as int]));
            states = before.push((tables@, actions@));
            assert forall|i: int|
                #![trigger grown[i]]
                0 <= i < grown.len() implies listener_ended(
                states[i].0,
                states[i + 1].0,
                states[i].1,
                states[i + 1].1,
                grown[i],
                *outcome,
            ) by {
                if i < taken.len() {
                    assert(grown[i] == taken[i]);
                }
            }
        }
        next = next + 1;
    }
    assert(tokens@.take(next as int) =~= tokens@);
}

/// Takes every connect that was not started off its queue, behind the connects of
/// the outbound routes.
fn take_all_connects(connections: &mut ConnectionRegistry) -> (requests: Vec<RequestToken>)
    requires
        old(connections).wf(),
    ensures
        final(connections).wf(),
        requests@ == all_connects(old(connections)@),
        final(connections)@ == (RegistryView {
            pending_outbound: Seq::empty(),
            ..old(connections)@
        }),
{
    let tokens = connections.outbound_routes();
    let mut requests: Vec<RequestToken> = Vec::new();
    let mut next: usize = 0;
    while next < tokens.len()
        invariant
            connections.wf(),
            connections@ == old(connections)@,
            next <= tokens.len(),
            requests@ == waiting_connects(old(connections)@, tokens@.take(next as int)),
        decreases tokens.len() - next,
    {
        proof {
            assert(tokens@.take(next + 1).drop_last() =~= tokens@.take(next as int));
        }
        if let Some(request) = connections.outbound_request(tokens[next]) {
            requests.push(request);
        }
        next = next + 1;
    }
    assert(tokens@.take(next as int) =~= tokens@);
    let ghost routes = requests@;
    let ghost pending = old(connections)@.pending_outbound;
    let ghost named = |pending: (RequestToken, ConnectionReservation)| pending.0;
    let ghost mut done: int = 0;
    let mut going: bool = true;
    while going
        invariant
            connections.wf(),
            0 <= done <= pending.len(),
            pending == old(connections)@.pending_outbound,
            named == (|pending: (RequestToken, ConnectionReservation)| pending.0),
            connections@ == (RegistryView {
                pending_outbound: pending.skip(done),
                ..old(connections)@
            }),
            requests@ == routes + pending.take(done).map_values(named),
            !going ==> done == pending.len(),
        decreases
            pending.len() - done,
            (if going {
                1int
            } else {
                0
            }),
    {
        match connections.pop_outbound() {
            Some((request, _)) => {
                requests.push(request);
                proof {
                    assert(pending.take(done + 1).map_values(named) =~= pending.take(
                        done,
                    ).map_values(named).push(request));
                    assert(pending.skip(done).drop_first() =~= pending.skip(done + 1));
                    assert(requests@ =~= routes + pending.take(done + 1).map_values(named));
                    done = done + 1;
                }
            },
            None => {
                going = false;
            },
        }
    }
    proof {
        assert(pending.take(done) =~= pending);
        assert(pending.skip(done) =~= Seq::empty());
    }
    requests
}

proof fn one_waiter_takes_few_publications(
    view: ListenerView,
    accepts: SlotsView<AcceptRequest>,
    actions: Seq<Action>,
    outcome: MemoizedTerminalResult,
)
    ensures
        waiter_ended(view, accepts, actions, outcome).2.len() <= actions.len() + 3,
{
    let (start, begun) = ListenerEntry::terminal_start(view, outcome, actions);
    let error = outcome->Failed_0;
    let drain = WaiterDrain {
        waiters: start.waiters,
        requests: accepts,
        actions: begun,
        processed: 0,
    };
    if drain.room() >= 1 && drain.waiters.len() > 0 {
        let next = drain.first_failed(error);
        assert(drain.drained(1, error) == next.drained(1, error));
        assert(next.drained(1, error) == next);
    } else {
        assert(drain.drained(1, error) == drain);
    }
}

/// One waiter of a listener is one unit of shutdown work: while others wait behind it,
/// the search stays with the listener, and the outer budget decides how many follow.
pub proof fn one_waiter_is_one_unit(
    before: ShutdownView,
    after: ShutdownView,
    token: ListenerToken,
    outcome: MemoizedTerminalResult,
    end: UnitEnd,
)
    requires
        shutdown_unit(before, after, CmShutdownClass::Listeners, outcome, true, end),
        before.actions.len() + CM_STEP_RESERVE <= REACTOR_ACTION_BUDGET,
        !before.cursor.listeners_complete,
        before.cursor.listener_slot < before.tables.cm.listeners.slots.marks.len(),
        before.tables.cm.listeners.slots.occupied_between(
            before.cursor.listener_slot as int,
            before.cursor.listener_slot + 1,
        ) == seq![token],
        !before.cursor.terminalized.contains(token.encoded() as u64),
        before.tables.cm.listeners.entry(token)@.waiters.len() > 1,
    ensures
        end.units() == 1,
        end.goes_on(),
        after.tables.cm.listeners.entry(token)@.waiters
            == before.tables.cm.listeners.entry(token)@.waiters.drop_first(),
        after.cursor.listener_slot == token.slot,
        !after.cursor.listeners_complete,
{
    reveal(shutdown_unit);
    let closed = admission_ended(before.tables.cm.listeners.entry(token)@, outcome);
    let (start, begun) = ListenerEntry::terminal_start(closed, outcome, before.actions);
    let drain = WaiterDrain {
        waiters: start.waiters,
        requests: before.tables.accepts,
        actions: begun,
        processed: 0,
    };
    let next = drain.first_failed(outcome->Failed_0);
    assert(drain.drained(1, outcome->Failed_0) == next.drained(1, outcome->Failed_0));
    assert(next.drained(1, outcome->Failed_0) == next);
}

/// A unit of shutdown work publishes no more than there was room for when it began: a
/// turn never publishes more than its budget of publications.
pub proof fn shutdown_units_fit_their_room(
    before: ShutdownView,
    after: ShutdownView,
    class: CmShutdownClass,
    outcome: MemoizedTerminalResult,
    terminalize: bool,
    end: UnitEnd,
)
    requires
        before.actions.len() + CM_STEP_RESERVE <= REACTOR_ACTION_BUDGET,
        shutdown_unit(before, after, class, outcome, terminalize, end),
    ensures
        after.actions.len() <= REACTOR_ACTION_BUDGET,
{
    reveal(shutdown_unit);
    let cm = before.tables.cm;
    let slots = cm.listeners.slots;
    let slot = before.cursor.listener_slot as int;
    let found = slots.occupied_between(slot, slot + 1);
    if class is Listeners && found.len() > 0 {
        one_waiter_takes_few_publications(
            admission_ended(cm.listeners.entry(found[0])@, outcome),
            before.tables.accepts,
            before.actions,
            outcome,
        );
    }
    if class is RetainedListeners && cm.destructions.len() > 0 {
        if let Some(listener) = cm.destructions[0].owning_listener() {
            one_waiter_takes_few_publications(
                cm.listeners.entry(listener)@,
                before.tables.accepts,
                before.actions,
                outcome,
            );
        }
    }
}

/// A turn of shutdown work that begins within its budget of publications ends within it.
pub proof fn shutdown_turns_fit_their_budget(
    states: Seq<ShutdownView>,
    ends: Seq<UnitEnd>,
    class: CmShutdownClass,
    outcome: MemoizedTerminalResult,
    terminalize: bool,
    budget: usize,
)
    requires
        shutdown_run(states, ends, class, outcome, terminalize, budget),
        states[0].actions.len() <= REACTOR_ACTION_BUDGET,
    ensures
        states.last().actions.len() <= REACTOR_ACTION_BUDGET,
{
    if ends.len() > 0 {
        let last = ends.len() - 1;
        let end = ends[last];
        assert(run_step(states, ends, class, outcome, terminalize, budget, last));
        shutdown_units_fit_their_room(
            states[last],
            states[last + 1],
            class,
            outcome,
            terminalize,
            end,
        );
    }
}

/// A unit of shutdown work ends waits, and destroys nothing: every connection stays in
/// its slot, and every identifier that waits for its destruction goes on waiting.
pub proof fn shutdown_units_destroy_nothing(
    before: ShutdownView,
    after: ShutdownView,
    class: CmShutdownClass,
    outcome: MemoizedTerminalResult,
    terminalize: bool,
    end: UnitEnd,
)
    requires
        shutdown_unit(before, after, class, outcome, terminalize, end),
    ensures
        after.tables.connections.slots == before.tables.connections.slots,
        after.tables.cm.destructions.to_multiset() == before.tables.cm.destructions.to_multiset(),
        after.tables.cm.quarantined == before.tables.cm.quarantined,
{
    reveal(shutdown_unit);
    let waiting = before.tables.cm.destructions;
    if waiting.len() > 0 {
        let oldest = seq![waiting[0]];
        let rest = waiting.skip(1);
        assert(waiting =~= oldest + rest);
        assert(rest.push(waiting[0]) =~= rest + oldest);
        lemma_multiset_commutative(oldest, rest);
        lemma_multiset_commutative(rest, oldest);
        assert(rest.push(waiting[0]).to_multiset() =~= waiting.to_multiset());
    }
}

/// However a shutdown is cut into turns, a turn destroys nothing.
pub proof fn shutdown_turns_destroy_nothing(
    states: Seq<ShutdownView>,
    ends: Seq<UnitEnd>,
    class: CmShutdownClass,
    outcome: MemoizedTerminalResult,
    terminalize: bool,
    budget: usize,
)
    requires
        shutdown_run(states, ends, class, outcome, terminalize, budget),
    ensures
        states.last().tables.connections.slots == states[0].tables.connections.slots,
        states.last().tables.cm.destructions.to_multiset()
            == states[0].tables.cm.destructions.to_multiset(),
        states.last().tables.cm.quarantined == states[0].tables.cm.quarantined,
    decreases ends.len(),
{
    if ends.len() > 0 {
        let last = ends.len() - 1;
        let end = ends[last];
        let earlier = ends.drop_last();
        assert forall|i: int| 0 <= i < earlier.len() implies #[trigger] run_step(
            states.drop_last(),
            earlier,
            class,
            outcome,
            terminalize,
            budget,
            i,
        ) by {
            assert(earlier.take(i) =~= ends.take(i));
            assert(run_step(states, ends, class, outcome, terminalize, budget, i));
        }
        assert(run_step(states, ends, class, outcome, terminalize, budget, last));
        shutdown_turns_destroy_nothing(
            states.drop_last(),
            earlier,
            class,
            outcome,
            terminalize,
            budget,
        );
        shutdown_units_destroy_nothing(
            states[last],
            states[last + 1],
            class,
            outcome,
            terminalize,
            end,
        );
    }
}

} // verus!
