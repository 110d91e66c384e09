//! Which events reach which routes.

use vstd::prelude::*;

use crate::cm::{CmView, ContextRoute};
use crate::event::{
    counted, dispatch_route, event_route, CmDispatchRoute, CmEventReject, CmEventSnapshot,
    CmEventType,
};
use crate::registry::RegistryView;
use crate::slots::{Lookup, SlotKind, SlotsView};
use crate::token::{CmRouteToken, ListenerToken, SlotToken};

verus! {

/// A token leads to the entry of its slot as long as the slot holds that entry. Once
/// it is gone the lookup says whether it had completed, until the slot is used again;
/// from then on the token is stale. A token that was never issued is unknown.
pub proof fn a_token_leads_to_its_entry<T>(
    slots: SlotsView<T>,
    token: SlotToken,
    completed: bool,
    value: T,
)
    requires
        slots.tabled(),
    ensures
        slots.entries.contains_key(token) ==> slots.lookup(token) == Lookup::Occupied(
            slots.entries[token],
        ),
        slots.entries.contains_key(token) && completed ==> slots.removed(token, true).lookup(
            token,
        ) is Duplicate,
        slots.entries.contains_key(token) && !completed && token.generation < u32::MAX
            ==> slots.removed(token, false).lookup(token) is Stale,
        slots.entries.contains_key(token) && !completed && token.generation == u32::MAX
            ==> slots.removed(token, false).lookup(token) is Retired,
        slots.entries.contains_key(token) ==> {
            &&& slots.removed(token, completed).entries =~= slots.entries.remove(token)
            &&& slots.removed(token, completed).tabled()
            &&& slots.removed(token, completed).capacity == slots.capacity
            &&& slots.removed(token, completed).may_issue(
                SlotToken { slot: token.slot, generation: (token.generation + 1) as u32 },
            ) <==> token.generation < u32::MAX
        },
        slots.entries.contains_key(token) ==> forall|other: SlotToken|
            #![trigger slots.lookup(other)]
            other != token && other.slot != token.slot ==> slots.removed(token, completed).lookup(
                other,
            ) == slots.lookup(other),
        slots.may_issue(token) ==> {
            &&& slots.added(token, value).lookup(token) == Lookup::Occupied(value)
            &&& slots.added(token, value).entries =~= slots.entries.insert(token, value)
            &&& slots.added(token, value).capacity == slots.capacity
            &&& !slots.entries.contains_key(token)
        },
        slots.may_issue(token) ==> forall|other: SlotToken|
            #![trigger slots.lookup(other)]
            other.slot == token.slot && other.generation < token.generation ==> slots.added(
                token,
                value,
            ).lookup(other) is Stale,
        token.slot >= slots.marks.len() || token.generation > slots.marks[token.slot as int].generation
            ==> slots.lookup(token) is Unknown,
{
    if slots.entries.contains_key(token) {
        let after = slots.removed(token, completed);
        assert forall|other: SlotToken| #[trigger]
            after.entries.contains_key(other) <==> {
                &&& other.slot < after.marks.len()
                &&& after.marks[other.slot as int].generation == other.generation
                &&& after.marks[other.slot as int].kind is Occupied
            } by {
            assert(slots.entries.contains_key(other) <==> {
                &&& other.slot < slots.marks.len()
                &&& slots.marks[other.slot as int].generation == other.generation
                &&& slots.marks[other.slot as int].kind is Occupied
            });
        }
    }
}

/// A connect request whose listening identifier is that of a listener in the table is
/// dispatched to that listener, whatever its context key.
pub proof fn connect_requests_reach_their_listener(
    cm: CmView,
    connections: RegistryView,
    snapshot: CmEventSnapshot,
    token: ListenerToken,
)
    requires
        cm.listeners.slots.tabled(),
        snapshot.event_type is ConnectRequest,
        cm.listeners.raw_ids.contains_key(snapshot.listen_id),
        cm.listeners.raw_ids[snapshot.listen_id] == token,
        cm.listeners.slots.entries.contains_key(token),
        cm.listeners.slots.entries[token].raw_id == snapshot.listen_id,
    ensures
        dispatch_route(cm, connections, snapshot) == Ok::<CmDispatchRoute, CmEventReject>(
            CmDispatchRoute::Listener(token),
        ),
{
}

/// An event that carries the context key and the identifier of an outbound route in
/// the table is dispatched to that route.
pub proof fn events_reach_their_outbound_route(
    cm: CmView,
    connections: RegistryView,
    snapshot: CmEventSnapshot,
    token: CmRouteToken,
)
    requires
        connections.slots.tabled(),
        snapshot.context_key != 0,
        cm.routes.contains_key(snapshot.context_key),
        cm.routes[snapshot.context_key] == (ContextRoute::Outbound { token, raw_id: snapshot.id }),
        connections.outbound(token),
        connections.outbound_route(token).raw_id == snapshot.id,
        connections.outbound_route(token).context_key == snapshot.context_key,
    ensures
        !(snapshot.event_type is ConnectRequest) ==> dispatch_route(cm, connections, snapshot)
            == Ok::<CmDispatchRoute, CmEventReject>(CmDispatchRoute::Outbound(token)),
        event_route(cm, connections, snapshot) is Ok,
        event_route(cm, connections, snapshot)->Ok_0.token == token,
        event_route(cm, connections, snapshot)->Ok_0.raw_id == snapshot.id,
        event_route(cm, connections, snapshot)->Ok_0.context_key == snapshot.context_key,
{
}

/// An event that carries the context key and the identifier of an inbound route in the
/// table is dispatched to that route.
pub proof fn events_reach_their_inbound_route(
    cm: CmView,
    connections: RegistryView,
    snapshot: CmEventSnapshot,
    token: CmRouteToken,
)
    requires
        connections.slots.tabled(),
        !(snapshot.event_type is ConnectRequest),
        snapshot.context_key != 0,
        cm.routes.contains_key(snapshot.context_key),
        cm.routes[snapshot.context_key] == (ContextRoute::Inbound { token, raw_id: snapshot.id }),
        connections.inbound(token),
        connections.inbound_route(token).raw_id == snapshot.id,
        connections.inbound_route(token).context_key == snapshot.context_key,
    ensures
        dispatch_route(cm, connections, snapshot) == Ok::<CmDispatchRoute, CmEventReject>(
            CmDispatchRoute::Inbound(token),
        ),
{
}

/// An event that carries the context key and the identifier of a listener in the table
/// is dispatched to that listener.
pub proof fn events_reach_their_listener(
    cm: CmView,
    connections: RegistryView,
    snapshot: CmEventSnapshot,
    token: ListenerToken,
)
    requires
        cm.listeners.slots.tabled(),
        !(snapshot.event_type is ConnectRequest),
        snapshot.context_key != 0,
        cm.routes.contains_key(snapshot.context_key),
        cm.routes[snapshot.context_key] == (ContextRoute::Listener { token, raw_id: snapshot.id }),
        cm.listeners.slots.entries.contains_key(token),
        cm.listeners.slots.entries[token].raw_id == snapshot.id,
        cm.listeners.slots.entries[token].context_key == snapshot.context_key,
    ensures
        dispatch_route(cm, connections, snapshot) == Ok::<CmDispatchRoute, CmEventReject>(
            CmDispatchRoute::Listener(token),
        ),
{
}

/// An event that reaches nothing says why: its key or its listening identifier is
/// nobody's; or it leads to another identifier than the event carries; or the route
/// is gone, completed at this generation, or from an older one.
pub proof fn refused_events_say_why(
    cm: CmView,
    connections: RegistryView,
    snapshot: CmEventSnapshot,
)
    requires
        cm.listeners.slots.tabled(),
        connections.slots.tabled(),
    ensures
        snapshot.event_type is ConnectRequest && !cm.listeners.raw_ids.contains_key(
            snapshot.listen_id,
        ) ==> dispatch_route(cm, connections, snapshot) == Err::<CmDispatchRoute, CmEventReject>(
            CmEventReject::Unknown,
        ),
        !(snapshot.event_type is ConnectRequest) && (snapshot.context_key == 0
            || !cm.routes.contains_key(snapshot.context_key)) ==> dispatch_route(
            cm,
            connections,
            snapshot,
        ) == Err::<CmDispatchRoute, CmEventReject>(CmEventReject::Unknown),
        !(snapshot.event_type is ConnectRequest) && snapshot.context_key != 0
            && cm.routes.contains_key(snapshot.context_key) ==> {
            let (raw_id, token, entered, slots_len, mark) = match cm.routes[snapshot.context_key] {
                ContextRoute::Outbound { token, raw_id } => (
                    raw_id,
                    token,
                    connections.slots.entries.contains_key(token),
                    connections.slots.marks.len(),
                    connections.slots.marks[token.slot as int],
                ),
                ContextRoute::Inbound { token, raw_id } => (
                    raw_id,
                    token,
                    connections.slots.entries.contains_key(token),
                    connections.slots.marks.len(),
                    connections.slots.marks[token.slot as int],
                ),
                ContextRoute::Listener { token, raw_id } => (
                    raw_id,
                    token,
                    cm.listeners.slots.entries.contains_key(token),
                    cm.listeners.slots.marks.len(),
                    cm.listeners.slots.marks[token.slot as int],
                ),
            };
            let answer = dispatch_route(cm, connections, snapshot);
            &&& raw_id != snapshot.id ==> answer == Err::<CmDispatchRoute, CmEventReject>(
                CmEventReject::WrongId,
            )
            &&& raw_id == snapshot.id && token.slot < slots_len && token.generation
                < mark.generation ==> answer == Err::<CmDispatchRoute, CmEventReject>(
                CmEventReject::Stale,
            )
            &&& raw_id == snapshot.id && token.slot < slots_len && token.generation
                == mark.generation && mark.kind == (SlotKind::Vacant { completed: true }) ==> answer
                == Err::<CmDispatchRoute, CmEventReject>(CmEventReject::Duplicate)
            &&& raw_id == snapshot.id && token.slot < slots_len && token.generation
                == mark.generation && mark.kind == (SlotKind::Retired { completed: true })
                ==> answer == Err::<CmDispatchRoute, CmEventReject>(CmEventReject::Duplicate)
            &&& raw_id == snapshot.id && token.slot < slots_len && token.generation
                == mark.generation && mark.kind == (SlotKind::Vacant { completed: false })
                ==> answer == Err::<CmDispatchRoute, CmEventReject>(CmEventReject::Stale)
            &&& raw_id == snapshot.id && token.slot < slots_len && token.generation
                == mark.generation && mark.kind == (SlotKind::Retired { completed: false })
                ==> answer == Err::<CmDispatchRoute, CmEventReject>(CmEventReject::Stale)
            &&& raw_id == snapshot.id && token.slot >= slots_len ==> answer == Err::<
                CmDispatchRoute,
                CmEventReject,
            >(CmEventReject::Unknown)
        },
{
}

/// Every refused event but a duplicate counts once.
pub proof fn refusals_count_once(rejected: u64, reject: CmEventReject)
    ensures
        reject is Duplicate ==> counted(rejected, reject) == rejected,
        !(reject is Duplicate) && rejected < u64::MAX ==> counted(rejected, reject) == rejected
            + 1,
        !(reject is Duplicate) && rejected == u64::MAX ==> counted(rejected, reject) == 0,
{
}

/// An event tells of a failure if its status does, or if its type is one of those that
/// only tell of failures.
pub proof fn failures_are_recognised(snapshot: CmEventSnapshot)
    ensures
        snapshot.status != 0 ==> snapshot.failed(),
        match snapshot.event_type {
            CmEventType::AddrError | CmEventType::RouteError | CmEventType::ConnectError
            | CmEventType::Unreachable | CmEventType::Rejected | CmEventType::DeviceRemoval
            | CmEventType::AddrChange => snapshot.failed(),
            CmEventType::AddrResolved | CmEventType::RouteResolved | CmEventType::ConnectRequest
            | CmEventType::ConnectResponse | CmEventType::Established | CmEventType::Disconnected
            | CmEventType::MulticastJoin | CmEventType::MulticastError
            | CmEventType::TimewaitExit => snapshot.failed() <==> snapshot.status != 0,
        },
{
}

/// Two tokens that are written as one number are one token, and the number leads back
/// to it.
pub proof fn a_token_is_its_number(token: SlotToken, other: SlotToken)
    ensures
        0 <= token.encoded() <= u64::MAX,
        SlotToken::decoded(token.encoded() as u64) == token,
        token.encoded() == other.encoded() ==> token == other,
{
    let high: int = token.generation as int;
    let low: int = token.slot as int;
    assert(high * 0x1_0000_0000 + low <= u64::MAX) by (nonlinear_arith)
        requires
            0 <= high <= u32::MAX,
            0 <= low <= u32::MAX,
    ;
    assert((high * 0x1_0000_0000 + low) / 0x1_0000_0000 == high) by (nonlinear_arith)
        requires
            0 <= high,
            0 <= low <= u32::MAX,
    ;
    assert((high * 0x1_0000_0000 + low) % 0x1_0000_0000 == low) by (nonlinear_arith)
        requires
            0 <= high,
            0 <= low <= u32::MAX,
    ;
}

} // verus!
