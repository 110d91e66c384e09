//! Connection-manager events: which route an event belongs to, exactly.

use vstd::prelude::*;
use vstd::string::StringExecFns;

use crate::cm::{CmState, CmView, ContextRoute};
use crate::registry::{ConnectionRegistry, RegistryView};
use crate::routes::{ConnectionRouteDirection, ConnectionRouteIdentity};
use crate::slots::Lookup;
use crate::text::{append_hexadecimal, append_signed};
use crate::text::{hexadecimal, signed_decimal};
use crate::token::{ConnectionToken, ListenerToken};

verus! {

/// The kinds of connection-manager event.
#[derive(Clone, Copy, Debug, PartialEq, Eq, Structural)]
pub enum CmEventType {
    AddrResolved,
    AddrError,
    RouteResolved,
    RouteError,
    ConnectRequest,
    ConnectResponse,
    ConnectError,
    Unreachable,
    Rejected,
    Established,
    Disconnected,
    DeviceRemoval,
    MulticastJoin,
    MulticastError,
    AddrChange,
    TimewaitExit,
}

impl CmEventType {
    /// The name of an event kind.
    pub open spec fn name(self) -> Seq<char> {
        match self {
            CmEventType::AddrResolved => "AddrResolved"@,
            CmEventType::AddrError => "AddrError"@,
            CmEventType::RouteResolved => "RouteResolved"@,
            CmEventType::RouteError => "RouteError"@,
            CmEventType::ConnectRequest => "ConnectRequest"@,
            CmEventType::ConnectResponse => "ConnectResponse"@,
            CmEventType::ConnectError => "ConnectError"@,
            CmEventType::Unreachable => "Unreachable"@,
            CmEventType::Rejected => "Rejected"@,
            CmEventType::Established => "Established"@,
            CmEventType::Disconnected => "Disconnected"@,
            CmEventType::DeviceRemoval => "DeviceRemoval"@,
            CmEventType::MulticastJoin => "MulticastJoin"@,
            CmEventType::MulticastError => "MulticastError"@,
            CmEventType::AddrChange => "AddrChange"@,
            CmEventType::TimewaitExit => "TimewaitExit"@,
        }
    }

    fn as_str(self) -> (name: &'static str)
        ensures
            name@ == self.name(),
    {
        match self {
            CmEventType::AddrResolved => "AddrResolved",
            CmEventType::AddrError => "AddrError",
            CmEventType::RouteResolved => "RouteResolved",
            CmEventType::RouteError => "RouteError",
            CmEventType::ConnectRequest => "ConnectRequest",
            CmEventType::ConnectResponse => "ConnectResponse",
            CmEventType::ConnectError => "ConnectError",
            CmEventType::Unreachable => "Unreachable",
            CmEventType::Rejected => "Rejected",
            CmEventType::Established => "Established",
            CmEventType::Disconnected => "Disconnected",
            CmEventType::DeviceRemoval => "DeviceRemoval",
            CmEventType::MulticastJoin => "MulticastJoin",
            CmEventType::MulticastError => "MulticastError",
            CmEventType::AddrChange => "AddrChange",
            CmEventType::TimewaitExit => "TimewaitExit",
        }
    }

    /// Whether events of this kind report a failure.
    pub open spec fn is_failure(self) -> bool {
        self is AddrError || self is RouteError || self is ConnectError || self is Unreachable
            || self is Rejected || self is DeviceRemoval || self is AddrChange
    }
}

/// Why an event is not acted on.
#[derive(Clone, Copy, Debug, PartialEq, Eq, Structural)]
pub enum CmEventReject {
    Stale,
    Duplicate,
    Unknown,
    WrongId,
    Unexpected,
}

/// What an event said, copied before it was acknowledged.
#[derive(Clone, Copy, Debug, PartialEq, Eq, Structural)]
pub struct CmEventSnapshot {
    pub event_type: CmEventType,
    pub status: i32,
    pub id: u64,
    pub listen_id: u64,
    pub context_key: u64,
}

impl CmEventSnapshot {
    /// Whether the event reports a failure, by its kind or by its status.
    pub open spec fn failed(self) -> bool {
        self.event_type.is_failure() || self.status != 0
    }

    pub fn is_failure(&self) -> (failed: bool)
        ensures
            failed == self.failed(),
    {
        is_failure_event(self.event_type) || self.status != 0
    }

    /// What a failure event says of itself, behind `prefix`.
    pub open spec fn failure_text(self, prefix: Seq<char>) -> Seq<char> {
        prefix + "RDMA CM "@ + self.event_type.name() + " failed with status "@ + signed_decimal(
            self.status as int,
        ) + " for id="@ + hexadecimal(self.id as nat) + " listen_id="@ + hexadecimal(
            self.listen_id as nat,
        )
    }

    pub fn failure_message(&self, prefix: &str) -> (text: String)
        ensures
            text@ == self.failure_text(prefix@),
    {
        let mut text: String = String::new();
        text.append(prefix);
        text.append("RDMA CM ");
        text.append(self.event_type.as_str());
        text.append(" failed with status ");
        append_signed(&mut text, self.status);
        text.append(" for id=");
        append_hexadecimal(&mut text, self.id);
        text.append(" listen_id=");
        append_hexadecimal(&mut text, self.listen_id);
        assert(text@ =~= self.failure_text(prefix@));
        text
    }

    /// What a failure event of a listener says.
    pub open spec fn listener_text(self, address: Seq<char>) -> Seq<char> {
        "listener "@ + address + " RDMA CM "@ + self.event_type.name() + " failed with status "@
            + signed_decimal(self.status as int) + " for id="@ + hexadecimal(self.id as nat)
    }

    pub fn listener_message(&self, address: &str) -> (text: String)
        ensures
            text@ == self.listener_text(address@),
    {
        let mut text: String = String::new();
        text.append("listener ");
        text.append(address);
        text.append(" RDMA CM ");
        text.append(self.event_type.as_str());
        text.append(" failed with status ");
        append_signed(&mut text, self.status);
        text.append(" for id=");
        append_hexadecimal(&mut text, self.id);
        assert(text@ =~= self.listener_text(address@));
        text
    }
}

/// What became of an event.
#[derive(Clone, Copy, Debug, PartialEq, Eq, Structural)]
pub enum EventDisposition {
    Handled,
    IgnoredAfterShutdown,
    Rejected(CmEventReject),
}

/// Who an event goes to.
#[derive(Clone, Copy, Debug, PartialEq, Eq, Structural)]
pub enum CmDispatchRoute {
    Outbound(ConnectionToken),
    Inbound(ConnectionToken),
    Listener(ListenerToken),
}

/// An event that was read, and who it goes to.
#[derive(Clone, Copy, Debug)]
pub struct PendingCmEvent {
    pub snapshot: CmEventSnapshot,
    pub route: Result<CmDispatchRoute, CmEventReject>,
}

/// Whether an event of this kind reports a failure.
pub fn is_failure_event(event: CmEventType) -> (failure: bool)
    ensures
        failure == event.is_failure(),
{
    match event {
        CmEventType::AddrError
        | CmEventType::RouteError
        | CmEventType::ConnectError
        | CmEventType::Unreachable
        | CmEventType::Rejected
        | CmEventType::DeviceRemoval
        | CmEventType::AddrChange => true,
        _ => false,
    }
}

/// The count of rejected events with one more in it. A duplicate is no anomaly and is
/// not counted; a counter that is full starts anew.
pub open spec fn counted(rejected: u64, reject: CmEventReject) -> u64 {
    if reject is Duplicate {
        rejected
    } else if rejected == u64::MAX {
        0
    } else {
        (rejected + 1) as u64
    }
}

/// Counts a rejected event.
pub fn record_cm_reject(rejected: &mut u64, reject: CmEventReject)
    ensures
        *final(rejected) == counted(*old(rejected), reject),
{
    match reject {
        CmEventReject::Duplicate => {},
        _ => {
            *rejected = rejected.wrapping_add(1);
        },
    }
}

/// The rejection that an unsuccessful lookup leads to.
pub open spec fn lookup_rejection<T>(found: Lookup<T>) -> CmEventReject {
    match found {
        Lookup::Duplicate => CmEventReject::Duplicate,
        Lookup::Stale => CmEventReject::Stale,
        Lookup::Retired => CmEventReject::Stale,
        _ => CmEventReject::Unknown,
    }
}

/// The route that an event with this snapshot belongs to: its context key, its
/// identifier and the route's own record must agree.
pub open spec fn identified_route(
    found: Lookup<ConnectionRouteIdentity>,
    raw_id: u64,
    snapshot: CmEventSnapshot,
) -> Result<ConnectionRouteIdentity, CmEventReject> {
    if raw_id != snapshot.id {
        Err(CmEventReject::WrongId)
    } else {
        match found {
            Lookup::Occupied(route) => if route.raw_id != raw_id || route.context_key
                != snapshot.context_key {
                Err(CmEventReject::WrongId)
            } else {
                Ok(route)
            },
            other => Err(lookup_rejection(other)),
        }
    }
}

/// The outbound route that an event belongs to.
pub open spec fn event_route(cm: CmView, connections: RegistryView, snapshot: CmEventSnapshot) -> Result<
    ConnectionRouteIdentity,
    CmEventReject,
> {
    if snapshot.context_key == 0 || !cm.routes.contains_key(snapshot.context_key) {
        Err(CmEventReject::Unknown)
    } else {
        match cm.routes[snapshot.context_key] {
            ContextRoute::Outbound { token, raw_id } => identified_route(
                ConnectionRegistry::route_of(
                    connections,
                    token,
                    ConnectionRouteDirection::Outbound,
                ),
                raw_id,
                snapshot,
            ),
            _ => Err(CmEventReject::Unexpected),
        }
    }
}

/// Who an event goes to, or why to nobody. A connection request goes by the
/// identifier of its listener, any other event by its context key.
pub open spec fn dispatch_route(
    cm: CmView,
    connections: RegistryView,
    snapshot: CmEventSnapshot,
) -> Result<CmDispatchRoute, CmEventReject> {
    if snapshot.event_type is ConnectRequest {
        if !cm.listeners.raw_ids.contains_key(snapshot.listen_id) {
            Err(CmEventReject::Unknown)
        } else {
            let token = cm.listeners.raw_ids[snapshot.listen_id];
            match cm.listeners.slots.lookup(token) {
                Lookup::Occupied(listener) => if listener.raw_id != snapshot.listen_id {
                    Err(CmEventReject::WrongId)
                } else {
                    Ok(CmDispatchRoute::Listener(token))
                },
                other => Err(lookup_rejection(other)),
            }
        }
    } else if snapshot.context_key == 0 || !cm.routes.contains_key(snapshot.context_key) {
        Err(CmEventReject::Unknown)
    } else {
        match cm.routes[snapshot.context_key] {
            ContextRoute::Outbound { .. } => match event_route(cm, connections, snapshot) {
                Ok(route) => Ok(CmDispatchRoute::Outbound(route.token)),
                Err(reject) => Err(reject),
            },
            ContextRoute::Inbound { token, raw_id } => match identified_route(
                ConnectionRegistry::route_of(
                    connections,
                    token,
                    ConnectionRouteDirection::Inbound,
                ),
                raw_id,
                snapshot,
            ) {
                Ok(_) => Ok(CmDispatchRoute::Inbound(token)),
                Err(reject) => Err(reject),
            },
            ContextRoute::Listener { token, raw_id } => if raw_id != snapshot.id {
                Err(CmEventReject::WrongId)
            } else {
                match cm.listeners.slots.lookup(token) {
                    Lookup::Occupied(listener) => if listener.raw_id != raw_id
                        || listener.context_key != snapshot.context_key {
                        Err(CmEventReject::WrongId)
                    } else {
                        Ok(CmDispatchRoute::Listener(token))
                    },
                    other => Err(lookup_rejection(other)),
                }
            },
        }
    }
}

pub fn lookup_event_route(
    cm: &CmState,
    connections: &ConnectionRegistry,
    snapshot: CmEventSnapshot,
) -> (route: Result<ConnectionRouteIdentity, CmEventReject>)
    requires
        cm.wf(),
        connections.wf(),
    ensures
        route == event_route(cm@, connections@, snapshot),
{
    broadcast use vstd::std_specs::hash::group_hash_axioms;

    if snapshot.context_key == 0 {
        return Err(CmEventReject::Unknown);
    }
    let (token, raw_id): (ConnectionToken, u64) = match cm.context_routes.get(
        &snapshot.context_key,
    ) {
        Some(ContextRoute::Outbound { token, raw_id }) => (*token, *raw_id),
        Some(_) => {
            return Err(CmEventReject::Unexpected);
        },
        None => {
            return Err(CmEventReject::Unknown);
        },
    };
    if raw_id != snapshot.id {
        return Err(CmEventReject::WrongId);
    }
    match connections.lookup_outbound(token) {
        Lookup::Occupied(route) => if route.raw_id != raw_id || route.context_key
            != snapshot.context_key {
            Err(CmEventReject::WrongId)
        } else {
            Ok(route)
        },
        Lookup::Duplicate => Err(CmEventReject::Duplicate),
        Lookup::Stale | Lookup::Retired => Err(CmEventReject::Stale),
        Lookup::Unknown => Err(CmEventReject::Unknown),
    }
}

pub fn lookup_dispatch_route(
    cm: &CmState,
    connections: &ConnectionRegistry,
    snapshot: CmEventSnapshot,
) -> (route: Result<CmDispatchRoute, CmEventReject>)
    requires
        cm.wf(),
        connections.wf(),
    ensures
        route == dispatch_route(cm@, connections@, snapshot),
{
    broadcast use vstd::std_specs::hash::group_hash_axioms;

    if snapshot.event_type == CmEventType::ConnectRequest {
        let token = match cm.listeners.token_for_raw(snapshot.listen_id) {
            Some(token) => token,
            None => {
                return Err(CmEventReject::Unknown);
            },
        };
        return match cm.listeners.lookup(token) {
            Lookup::Occupied(listener) => if listener.raw_id != snapshot.listen_id {
                Err(CmEventReject::WrongId)
            } else {
                Ok(CmDispatchRoute::Listener(token))
            },
            Lookup::Duplicate => Err(CmEventReject::Duplicate),
            Lookup::Stale | Lookup::Retired => Err(CmEventReject::Stale),
            Lookup::Unknown => Err(CmEventReject::Unknown),
        };
    }
    if snapshot.context_key == 0 {
        return Err(CmEventReject::Unknown);
    }
    match cm.context_routes.get(&snapshot.context_key) {
        None => Err(CmEventReject::Unknown),
        Some(ContextRoute::Outbound { .. }) => match lookup_event_route(cm, connections, snapshot) {
            Ok(route) => Ok(CmDispatchRoute::Outbound(route.token)),
            Err(reject) => Err(reject),
        },
        Some(ContextRoute::Inbound { token, raw_id }) => {
            if *raw_id != snapshot.id {
                return Err(CmEventReject::WrongId);
            }
            match connections.lookup_inbound(*token) {
                Lookup::Occupied(route) => if route.raw_id != *raw_id || route.context_key
                    != snapshot.context_key {
                    Err(CmEventReject::WrongId)
                } else {
                    Ok(CmDispatchRoute::Inbound(*token))
                },
                Lookup::Duplicate => Err(CmEventReject::Duplicate),
                Lookup::Stale | Lookup::Retired => Err(CmEventReject::Stale),
                Lookup::Unknown => Err(CmEventReject::Unknown),
            }
        },
        Some(ContextRoute::Listener { token, raw_id }) => {
            if *raw_id != snapshot.id {
                return Err(CmEventReject::WrongId);
            }
            match cm.listeners.lookup(*token) {
                Lookup::Occupied(listener) => if listener.raw_id != *raw_id
                    || listener.context_key != snapshot.context_key {
                    Err(CmEventReject::WrongId)
                } else {
                    Ok(CmDispatchRoute::Listener(*token))
                },
                Lookup::Duplicate => Err(CmEventReject::Duplicate),
                Lookup::Stale | Lookup::Retired => Err(CmEventReject::Stale),
                Lookup::Unknown => Err(CmEventReject::Unknown),
            }
        },
    }
}

/// An event that reaches a route carries that route's identifier and context key,
/// and the route is the present occupant of its slot: no event reaches a
/// successor of the route that it was meant for.
pub proof fn dispatched_events_are_exact(
    cm: CmView,
    connections: RegistryView,
    snapshot: CmEventSnapshot,
)
    requires
        dispatch_route(cm, connections, snapshot) is Ok,
    ensures
        match dispatch_route(cm, connections, snapshot)->Ok_0 {
            CmDispatchRoute::Outbound(token) => {
                &&& connections.slots.lookup(token) is Occupied
                &&& connections.slots.lookup(token)->0.route is Outbound
                &&& connections.slots.lookup(token)->0.route->Outbound_0.raw_id == snapshot.id
                &&& connections.slots.lookup(token)->0.route->Outbound_0.context_key
                    == snapshot.context_key
            },
            CmDispatchRoute::Inbound(token) => {
                &&& connections.slots.lookup(token) is Occupied
                &&& connections.slots.lookup(token)->0.route is Inbound
                &&& connections.slots.lookup(token)->0.route->Inbound_0.raw_id == snapshot.id
                &&& connections.slots.lookup(token)->0.route->Inbound_0.context_key
                    == snapshot.context_key
            },
            CmDispatchRoute::Listener(token) => {
                &&& cm.listeners.slots.lookup(token) is Occupied
                &&& snapshot.event_type is ConnectRequest ==> cm.listeners.slots.lookup(
                    token,
                )->0.raw_id == snapshot.listen_id
                &&& !(snapshot.event_type is ConnectRequest) ==> cm.listeners.slots.lookup(
                    token,
                )->0.raw_id == snapshot.id
            },
        },
{
}

} // verus!
