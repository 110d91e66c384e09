//! Connection-manager routes and the states they pass through.

use vstd::prelude::*;

use crate::admission::ConnectionReservation;
use crate::connection::CmId;
use crate::error::Error;
use crate::token::{ConnectionToken, ListenerToken, RequestToken};

verus! {

/// The connection that an established route leads to.
#[derive(Clone, Copy, Debug, PartialEq, Eq, Structural)]
pub struct EstablishedConnectionRoute {
    pub token: ConnectionToken,
}

impl EstablishedConnectionRoute {
    pub fn new(token: ConnectionToken) -> (route: Self)
        ensures
            route.token == token,
    {
        EstablishedConnectionRoute { token }
    }
}

/// Where an outbound route stands.
#[allow(inconsistent_fields)]
pub enum OutboundState {
    AwaitAddr { cm_id: CmId, request: RequestToken, reservation: ConnectionReservation },
    AwaitRoute { cm_id: CmId, request: RequestToken, reservation: ConnectionReservation },
    AwaitEstablished { request: RequestToken, connection: ConnectionToken },
    EstablishedAwaitingDelivery { request: RequestToken, connection: EstablishedConnectionRoute },
    DisconnectedAwaitingDelivery { request: RequestToken, connection: EstablishedConnectionRoute },
    Disconnected { connection: EstablishedConnectionRoute },
    FailedAwaitingDelivery { request: RequestToken, connection: EstablishedConnectionRoute },
    Failed { connection: EstablishedConnectionRoute },
    Closing { connection: EstablishedConnectionRoute },
    Quarantined { connection: Option<EstablishedConnectionRoute> },
    Transitioning,
}

impl OutboundState {
    /// The reservation that a route in this state holds.
    pub open spec fn held(self) -> Option<ConnectionReservation> {
        match self {
            OutboundState::AwaitAddr { reservation, .. } => Some(reservation),
            OutboundState::AwaitRoute { reservation, .. } => Some(reservation),
            _ => None,
        }
    }

    /// The connection that this state refers to.
    pub open spec fn referenced(self) -> Option<ConnectionToken> {
        match self {
            OutboundState::AwaitEstablished { connection, .. } => Some(connection),
            OutboundState::EstablishedAwaitingDelivery { connection, .. } => Some(connection.token),
            OutboundState::DisconnectedAwaitingDelivery { connection, .. } => Some(
                connection.token,
            ),
            OutboundState::Disconnected { connection } => Some(connection.token),
            OutboundState::FailedAwaitingDelivery { connection, .. } => Some(connection.token),
            OutboundState::Failed { connection } => Some(connection.token),
            OutboundState::Closing { connection } => Some(connection.token),
            OutboundState::Quarantined { connection: Some(connection) } => Some(connection.token),
            _ => None,
        }
    }

    /// The connect request that still waits behind this state.
    pub open spec fn waiting_request(self) -> Option<RequestToken> {
        match self {
            OutboundState::AwaitAddr { request, .. } => Some(request),
            OutboundState::AwaitRoute { request, .. } => Some(request),
            OutboundState::AwaitEstablished { request, .. } => Some(request),
            OutboundState::EstablishedAwaitingDelivery { request, .. } => Some(request),
            OutboundState::DisconnectedAwaitingDelivery { request, .. } => Some(request),
            OutboundState::FailedAwaitingDelivery { request, .. } => Some(request),
            _ => None,
        }
    }

    pub open spec fn establishing(self) -> bool {
        self is AwaitAddr || self is AwaitRoute || self is AwaitEstablished
            || self is Transitioning
    }

    pub open spec fn disconnected(self) -> bool {
        self is DisconnectedAwaitingDelivery || self is Disconnected
            || self is FailedAwaitingDelivery || self is Failed || self is Closing
            || self is Quarantined
    }

    pub fn references_connection(&self, token: ConnectionToken) -> (refers: bool)
        ensures
            refers == (self.referenced() == Some(token)),
    {
        match self {
            OutboundState::AwaitEstablished { connection, .. } => *connection == token,
            OutboundState::EstablishedAwaitingDelivery { connection, .. }
            | OutboundState::DisconnectedAwaitingDelivery { connection, .. }
            | OutboundState::Disconnected { connection }
            | OutboundState::FailedAwaitingDelivery { connection, .. }
            | OutboundState::Failed { connection }
            | OutboundState::Closing { connection } => connection.token == token,
            OutboundState::Quarantined { connection: Some(connection) } => connection.token
                == token,
            _ => false,
        }
    }
}

/// One outbound route.
pub struct OutboundRoute {
    pub raw_id: u64,
    pub context_key: u64,
    pub state: OutboundState,
}

impl OutboundRoute {
    pub fn new() -> (route: Self)
        ensures
            route == (OutboundRoute {
                raw_id: 0,
                context_key: 0,
                state: OutboundState::Transitioning,
            }),
    {
        OutboundRoute { raw_id: 0, context_key: 0, state: OutboundState::Transitioning }
    }

    /// Takes the state out, leaving the route transitioning.
    pub fn take_state(&mut self) -> (state: OutboundState)
        ensures
            state == old(self).state,
            *final(self) == (OutboundRoute { state: OutboundState::Transitioning, ..*old(self) }),
    {
        let mut state = OutboundState::Transitioning;
        core::mem::swap(&mut self.state, &mut state);
        state
    }

    /// The request that the route still works for.
    pub fn request(&self) -> (request: Option<RequestToken>)
        ensures
            request == self.state.waiting_request(),
    {
        match &self.state {
            OutboundState::AwaitAddr { request, .. }
            | OutboundState::AwaitRoute { request, .. }
            | OutboundState::AwaitEstablished { request, .. }
            | OutboundState::EstablishedAwaitingDelivery { request, .. }
            | OutboundState::DisconnectedAwaitingDelivery { request, .. }
            | OutboundState::FailedAwaitingDelivery { request, .. } => Some(*request),
            _ => None,
        }
    }

    pub fn is_establishing(&self) -> (establishing: bool)
        ensures
            establishing == self.state.establishing(),
    {
        match &self.state {
            OutboundState::AwaitAddr { .. }
            | OutboundState::AwaitRoute { .. }
            | OutboundState::AwaitEstablished { .. }
            | OutboundState::Transitioning => true,
            _ => false,
        }
    }

    pub fn is_disconnected(&self) -> (disconnected: bool)
        ensures
            disconnected == self.state.disconnected(),
    {
        match &self.state {
            OutboundState::DisconnectedAwaitingDelivery { .. }
            | OutboundState::Disconnected { .. }
            | OutboundState::FailedAwaitingDelivery { .. }
            | OutboundState::Failed { .. }
            | OutboundState::Closing { .. }
            | OutboundState::Quarantined { .. } => true,
            _ => false,
        }
    }
}

/// Why an inbound child is turned away.
#[derive(Clone, Copy, Debug, PartialEq, Eq, Structural)]
pub enum InboundRejectReason {
    BacklogFull,
    ConnectionCapacity,
    AdmissionClosed,
    ListenerClosed,
    ContextMismatch,
    SetupFailure,
}

/// Whether the peer of a closing inbound route was accepted, or is still owed a reject.
#[derive(Clone, Copy, Debug, PartialEq, Eq, Structural)]
pub enum InboundPeerState {
    PreAccept { reject: Option<InboundRejectReason> },
    Accepted,
}

/// Where an inbound route stands.
#[allow(inconsistent_fields)]
pub enum InboundState {
    PendingSelection { cm_id: CmId, reservation: ConnectionReservation },
    AwaitEstablished { request: RequestToken, connection: ConnectionToken },
    EstablishedAwaitingDelivery { request: RequestToken, connection: EstablishedConnectionRoute },
    Established { connection: EstablishedConnectionRoute },
    Closing {
        connection: EstablishedConnectionRoute,
        request: Option<RequestToken>,
        completion: Option<Error>,
        selected: bool,
        peer: InboundPeerState,
    },
    Quarantined { connection: Option<EstablishedConnectionRoute> },
    Transitioning,
}

impl InboundState {
    /// The reservation that a route in this state holds.
    pub open spec fn held(self) -> Option<ConnectionReservation> {
        match self {
            InboundState::PendingSelection { reservation, .. } => Some(reservation),
            _ => None,
        }
    }

    /// The connection that this state refers to.
    pub open spec fn referenced(self) -> Option<ConnectionToken> {
        match self {
            InboundState::AwaitEstablished { connection, .. } => Some(connection),
            InboundState::EstablishedAwaitingDelivery { connection, .. } => Some(connection.token),
            InboundState::Established { connection } => Some(connection.token),
            InboundState::Closing { connection, .. } => Some(connection.token),
            InboundState::Quarantined { connection: Some(connection) } => Some(connection.token),
            _ => None,
        }
    }

    pub fn references_connection(&self, token: ConnectionToken) -> (refers: bool)
        ensures
            refers == (self.referenced() == Some(token)),
    {
        match self {
            InboundState::AwaitEstablished { connection, .. } => *connection == token,
            InboundState::EstablishedAwaitingDelivery { connection, .. }
            | InboundState::Established { connection }
            | InboundState::Closing { connection, .. } => connection.token == token,
            InboundState::Quarantined { connection: Some(connection) } => connection.token
                == token,
            _ => false,
        }
    }
}

/// One inbound route.
pub struct InboundRoute {
    pub raw_id: u64,
    pub context_key: u64,
    pub listener: ListenerToken,
    pub state: InboundState,
}

impl InboundRoute {
    pub fn new(listener: ListenerToken) -> (route: Self)
        ensures
            route == (InboundRoute {
                raw_id: 0,
                context_key: 0,
                listener,
                state: InboundState::Transitioning,
            }),
    {
        InboundRoute { raw_id: 0, context_key: 0, listener, state: InboundState::Transitioning }
    }

    /// Takes the state out, leaving the route transitioning.
    pub fn take_state(&mut self) -> (state: InboundState)
        ensures
            state == old(self).state,
            *final(self) == (InboundRoute { state: InboundState::Transitioning, ..*old(self) }),
    {
        let mut state = InboundState::Transitioning;
        core::mem::swap(&mut self.state, &mut state);
        state
    }
}

/// The route of a connection entry.
pub enum Route {
    Outbound(OutboundRoute),
    Inbound(InboundRoute),
    Unrouted,
}

#[derive(Clone, Copy, Debug, PartialEq, Eq, Structural)]
pub enum ConnectionRouteDirection {
    Outbound,
    Inbound,
}

/// What identifies a route to the connection manager.
#[derive(Clone, Copy, Debug, PartialEq, Eq, Structural)]
pub struct ConnectionRouteIdentity {
    pub token: ConnectionToken,
    pub raw_id: u64,
    pub context_key: u64,
    pub direction: ConnectionRouteDirection,
}

/// The route that a connection's events arrive on.
#[derive(Clone, Copy, Debug, PartialEq, Eq, Structural)]
pub enum ConnectionCmRoute {
    Outbound(u64),
    Inbound(u64),
}

} // verus!
