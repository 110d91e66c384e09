//! What one reactor turn publishes after its state is committed.

use vstd::prelude::*;

use crate::error::Error;
use crate::token::{ConnectionToken, ListenerToken, RequestToken};

verus! {

/// How many publications one reactor turn may carry.
pub const REACTOR_ACTION_BUDGET: usize = 32;

/// How many free publications a step of connection-manager work needs before it starts.
pub const CM_STEP_RESERVE: usize = 8;

/// The most that one step of a connection or a listener publishes: an event, the wake
/// of those who wait for its close, and the wake of whoever asked for it.
pub const STEP_PUBLICATIONS: usize = 3;

/// A terminal event for the I/O side of a connection.
#[derive(Debug)]
pub enum IoTerminalEvent {
    Disconnected,
    Terminal(Error),
    Closed,
}

/// One publication.
#[derive(Debug)]
pub enum Action {
    /// Deliver a terminal event to the I/O side of a connection.
    IoEvent { connection: ConnectionToken, event: IoTerminalEvent },
    /// Wake the close waiters of a connection.
    WakeClose { connection: ConnectionToken },
    /// Wake the close waiters of a listener.
    WakeListener { listener: ListenerToken },
    /// Wake the waiter of a connect request.
    WakeConnect { request: RequestToken },
    /// Wake the waiter of an accept request.
    WakeAccept { request: RequestToken },
    /// Wake the waiter of a listen request.
    WakeListen { request: RequestToken },
    /// Publish an operation of the I/O side.
    Operation,
}

/// The publications collected in one turn, in order.
pub struct ReactorActions {
    pub queue: Vec<Action>,
}

impl ReactorActions {
    pub open spec fn view(&self) -> Seq<Action> {
        self.queue@
    }

    /// How many more publications fit.
    pub open spec fn room(&self) -> nat {
        if self.queue@.len() <= REACTOR_ACTION_BUDGET {
            (REACTOR_ACTION_BUDGET - self.queue@.len()) as nat
        } else {
            0
        }
    }

    pub fn new() -> (actions: Self)
        ensures
            actions@ == Seq::<Action>::empty(),
    {
        ReactorActions { queue: Vec::new() }
    }

    pub fn remaining(&self) -> (room: usize)
        ensures
            room == self.room(),
    {
        REACTOR_ACTION_BUDGET.saturating_sub(self.queue.len())
    }

    pub fn can_accept(&self, count: usize) -> (fits: bool)
        ensures
            fits == (count <= self.room()),
    {
        count <= self.remaining()
    }

    pub fn push(&mut self, action: Action)
        ensures
            final(self)@ == old(self)@.push(action),
    {
        self.queue.push(action);
    }
}

} // verus!
