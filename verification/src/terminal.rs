//! Terminal outcomes and their observers.

use vstd::prelude::*;

use crate::error::Error;

verus! {

/// A terminal outcome that can be read any number of times.
#[derive(Debug)]
pub enum MemoizedTerminalResult {
    Success,
    Failed(Error),
}

impl Clone for MemoizedTerminalResult {
    fn clone(&self) -> (copy: Self)
        ensures
            copy == *self,
    {
        match self {
            MemoizedTerminalResult::Success => MemoizedTerminalResult::Success,
            MemoizedTerminalResult::Failed(error) => MemoizedTerminalResult::Failed(error.clone()),
        }
    }
}

impl MemoizedTerminalResult {
    /// Whether the outcome reports retained connection resources.
    pub open spec fn quarantined(self) -> bool {
        match self {
            MemoizedTerminalResult::Failed(Error::ConnectionQuarantined { .. }) => true,
            MemoizedTerminalResult::Failed(Error::ConnectionDestroyQuarantined { .. }) => true,
            _ => false,
        }
    }

    /// The outcome as a result.
    pub open spec fn result(self) -> Result<(), Error> {
        match self {
            MemoizedTerminalResult::Success => Ok(()),
            MemoizedTerminalResult::Failed(error) => Err(error),
        }
    }

    /// The error of a failed outcome.
    pub open spec fn failure(self) -> Option<Error> {
        match self {
            MemoizedTerminalResult::Success => None,
            MemoizedTerminalResult::Failed(error) => Some(error),
        }
    }

    pub fn success() -> (outcome: Self)
        ensures
            outcome == MemoizedTerminalResult::Success,
    {
        MemoizedTerminalResult::Success
    }

    pub fn from_error(error: Error) -> (outcome: Self)
        ensures
            outcome == MemoizedTerminalResult::Failed(error),
    {
        MemoizedTerminalResult::Failed(error)
    }

    pub fn error(&self) -> (error: Option<Error>)
        ensures
            error == self.failure(),
    {
        match self {
            MemoizedTerminalResult::Success => None,
            MemoizedTerminalResult::Failed(error) => Some(error.clone()),
        }
    }

    pub fn into_result(self) -> (result: Result<(), Error>)
        ensures
            result == self.result(),
    {
        match self {
            MemoizedTerminalResult::Success => Ok(()),
            MemoizedTerminalResult::Failed(error) => Err(error),
        }
    }

    pub fn is_success(&self) -> (success: bool)
        ensures
            success == (*self is Success),
    {
        match self {
            MemoizedTerminalResult::Success => true,
            MemoizedTerminalResult::Failed(_) => false,
        }
    }

    pub fn is_connection_quarantined(&self) -> (quarantined: bool)
        ensures
            quarantined == self.quarantined(),
    {
        match self {
            MemoizedTerminalResult::Failed(Error::ConnectionQuarantined { .. }) => true,
            MemoizedTerminalResult::Failed(Error::ConnectionDestroyQuarantined { .. }) => true,
            _ => false,
        }
    }
}

/// The close observation of one connection.
#[derive(Debug)]
pub struct SessionCloseState {
    pub outcome: Option<MemoizedTerminalResult>,
    pub engine_terminal: Option<MemoizedTerminalResult>,
    pub retired: bool,
}

impl SessionCloseState {
    /// What a close waiter sees. An ordinary outcome stays hidden until the
    /// connection is retired; a quarantine shows at once; otherwise the end of
    /// the engine shows.
    pub open spec fn visible(self) -> Option<MemoizedTerminalResult> {
        if self.outcome is Some && (self.outcome->0.quarantined() || self.retired) {
            self.outcome
        } else {
            self.engine_terminal
        }
    }

    /// The state after `result` was published: the first result stays, except
    /// that a quarantine replaces it.
    pub open spec fn published(self, result: MemoizedTerminalResult) -> SessionCloseState {
        if self.outcome is None || result.quarantined() {
            SessionCloseState { outcome: Some(result), ..self }
        } else {
            self
        }
    }

    pub fn new() -> (state: Self)
        ensures
            state == (SessionCloseState { outcome: None, engine_terminal: None, retired: false }),
    {
        SessionCloseState { outcome: None, engine_terminal: None, retired: false }
    }

    pub fn outcome(&self) -> (outcome: Option<MemoizedTerminalResult>)
        ensures
            outcome == self.visible(),
    {
        match &self.outcome {
            Some(value) if value.is_connection_quarantined() || self.retired => Some(value.clone()),
            _ => match &self.engine_terminal {
                Some(value) => Some(value.clone()),
                None => None,
            },
        }
    }

    pub fn raw_outcome(&self) -> (outcome: Option<MemoizedTerminalResult>)
        ensures
            outcome == self.outcome,
    {
        match &self.outcome {
            Some(value) => Some(value.clone()),
            None => None,
        }
    }

    pub fn mark_retired(&mut self)
        ensures
            *final(self) == (SessionCloseState { retired: true, ..*old(self) }),
    {
        self.retired = true;
    }

    pub fn is_retired(&self) -> (retired: bool)
        ensures
            retired == self.retired,
    {
        self.retired
    }

    pub fn record_engine_terminal(&mut self, outcome: &MemoizedTerminalResult)
        ensures
            *final(self) == if old(self).engine_terminal is None {
                SessionCloseState { engine_terminal: Some(*outcome), ..*old(self) }
            } else {
                *old(self)
            },
    {
        if self.engine_terminal.is_none() {
            self.engine_terminal = Some(outcome.clone());
        }
    }

    pub fn publish(&mut self, result: &MemoizedTerminalResult)
        ensures
            *final(self) == old(self).published(*result),
    {
        if self.outcome.is_none() || result.is_connection_quarantined() {
            self.outcome = Some(result.clone());
        }
    }
}

/// The close observation of one listener, with the number of its frontends.
#[derive(Debug)]
pub struct SessionListenerCloseState {
    pub outcome: Option<MemoizedTerminalResult>,
    pub frontend_count: usize,
}

impl SessionListenerCloseState {
    pub fn new() -> (state: Self)
        ensures
            state == (SessionListenerCloseState { outcome: None, frontend_count: 1 }),
    {
        SessionListenerCloseState { outcome: None, frontend_count: 1 }
    }

    pub fn outcome(&self) -> (outcome: Option<MemoizedTerminalResult>)
        ensures
            outcome == self.outcome,
    {
        match &self.outcome {
            Some(value) => Some(value.clone()),
            None => None,
        }
    }

    /// Keeps `outcome` if nothing was kept before.
    pub fn store_if_empty(&mut self, outcome: MemoizedTerminalResult) -> (stored: bool)
        ensures
            stored == (old(self).outcome is None),
            *final(self) == if stored {
                SessionListenerCloseState { outcome: Some(outcome), ..*old(self) }
            } else {
                *old(self)
            },
    {
        if self.outcome.is_none() {
            self.outcome = Some(outcome);
            true
        } else {
            false
        }
    }

    pub fn retain_frontend(&mut self)
        requires
            old(self).frontend_count < usize::MAX,
        ensures
            *final(self) == (SessionListenerCloseState {
                frontend_count: (old(self).frontend_count + 1) as usize,
                ..*old(self)
            }),
    {
        self.frontend_count = self.frontend_count + 1;
    }

    /// Counts one frontend less; true when it was the last.
    pub fn release_frontend(&mut self) -> (last: bool)
        requires
            old(self).frontend_count > 0,
        ensures
            last == (old(self).frontend_count == 1),
            *final(self) == (SessionListenerCloseState {
                frontend_count: (old(self).frontend_count - 1) as usize,
                ..*old(self)
            }),
    {
        self.frontend_count = self.frontend_count - 1;
        self.frontend_count == 0
    }
}

/// A result that is handed over once.
#[derive(Debug)]
pub enum TakeOnceResult<T> {
    Pending,
    Ready(Result<T, Error>),
    Taken,
}

/// A close waiter never sees an ordinary outcome of a connection before the
/// connection is retired, unless the engine itself has ended.
pub proof fn ordinary_outcome_is_hidden_until_retirement(
    state: SessionCloseState,
    result: MemoizedTerminalResult,
)
    requires
        !state.retired,
        state.engine_terminal is None,
        state.outcome is None,
        !result.quarantined(),
    ensures
        state.published(result).visible() is None,
        (SessionCloseState { retired: true, ..state.published(result) }).visible() == Some(result),
{
}

/// Publishing again changes the outcome only towards a quarantine.
pub proof fn first_published_outcome_stays(
    state: SessionCloseState,
    first: MemoizedTerminalResult,
    second: MemoizedTerminalResult,
)
    requires
        state.outcome is None,
    ensures
        !second.quarantined() ==> state.published(first).published(second) == state.published(
            first,
        ),
        second.quarantined() ==> state.published(first).published(second) == state.published(
            second,
        ),
{
}

} // verus!
