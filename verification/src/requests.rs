//! Connect, accept and listen requests and their take-once results.

use vstd::prelude::*;

use tokio::sync::OwnedSemaphorePermit;

use crate::actions::{Action, ReactorActions};
use crate::config::RdmaConnectionConfig;
use crate::error::Error;
use crate::listener::RdmaListenerConfig;
use crate::slots::SlotRegistry;
use crate::terminal::TakeOnceResult;
use crate::token::{ConnectionToken, RequestToken, SlotToken};

verus! {

/// Names a setup that its owner runs before a connection is established; 0 names
/// the setup that posts nothing.
pub type ConnectionSetup = u64;

/// The setup that posts nothing.
pub fn empty_connection_setup() -> (setup: ConnectionSetup)
    ensures
        setup == 0,
{
    0
}

/// The result of a command, which is handed over once, and whether it was cancelled.
#[derive(Debug)]
pub struct CommandCompletion {
    pub result: TakeOnceResult<SlotToken>,
    pub cancelled: bool,
}

impl CommandCompletion {
    pub fn new() -> (completion: Self)
        ensures
            completion == (CommandCompletion { result: TakeOnceResult::Pending, cancelled: false }),
    {
        CommandCompletion { result: TakeOnceResult::Pending, cancelled: false }
    }

    /// The completion after `result` came in: the first result stays.
    pub open spec fn completed(self, result: Result<SlotToken, Error>) -> CommandCompletion {
        if self.result is Pending {
            CommandCompletion { result: TakeOnceResult::Ready(result), ..self }
        } else {
            self
        }
    }

    /// The completion after it was cancelled with `error`: a success that was not
    /// handed over is withdrawn.
    pub open spec fn cancelled_with(self, error: Error) -> CommandCompletion {
        CommandCompletion {
            result: match self.result {
                TakeOnceResult::Pending => TakeOnceResult::Ready(Err(error)),
                TakeOnceResult::Ready(Ok(_)) => TakeOnceResult::Ready(Err(error)),
                other => other,
            },
            cancelled: true,
        }
    }

    /// The completion after its result was asked for.
    pub open spec fn taken(self) -> CommandCompletion {
        match self.result {
            TakeOnceResult::Ready(_) => CommandCompletion { result: TakeOnceResult::Taken, ..self },
            _ => self,
        }
    }

    /// Keeps the first result; true when this one was kept.
    pub fn complete(&mut self, result: Result<SlotToken, Error>) -> (kept: bool)
        ensures
            kept == (old(self).result is Pending),
            *final(self) == old(self).completed(result),
    {
        match &self.result {
            TakeOnceResult::Pending => {
                self.result = TakeOnceResult::Ready(result);
                true
            },
            _ => false,
        }
    }

    /// Cancels the command, handing back a success that was not handed over.
    pub fn cancel(&mut self, error: Error) -> (withdrawn: Option<SlotToken>)
        ensures
            *final(self) == old(self).cancelled_with(error),
            withdrawn == match old(self).result {
                TakeOnceResult::Ready(Ok(value)) => Some(value),
                _ => None,
            },
    {
        self.cancelled = true;
        let withdrawn = match &self.result {
            TakeOnceResult::Ready(Ok(value)) => Some(*value),
            TakeOnceResult::Pending => None,
            _ => {
                return None;
            },
        };
        self.result = TakeOnceResult::Ready(Err(error));
        withdrawn
    }

    /// Hands the result over, if it is there and was not handed over before.
    pub fn take_result(&mut self) -> (result: Option<Result<SlotToken, Error>>)
        ensures
            *final(self) == old(self).taken(),
            result == match old(self).result {
                TakeOnceResult::Ready(value) => Some(value),
                _ => None,
            },
    {
        let mut current: TakeOnceResult<SlotToken> = TakeOnceResult::Taken;
        core::mem::swap(&mut self.result, &mut current);
        match current {
            TakeOnceResult::Ready(value) => Some(value),
            TakeOnceResult::Pending => {
                self.result = TakeOnceResult::Pending;
                None
            },
            TakeOnceResult::Taken => None,
        }
    }
}

/// A request to connect to a peer.
#[derive(Debug)]
pub struct OutboundRequest {
    pub address: String,
    pub config: RdmaConnectionConfig,
    pub setup: Option<ConnectionSetup>,
    pub completion: CommandCompletion,
    pub delivered: bool,
    pub cancellation_enqueued: bool,
    pub route_token: u64,
}

impl OutboundRequest {
    pub fn new(address: String, config: RdmaConnectionConfig, setup: ConnectionSetup) -> (request:
        Self)
        ensures
            request == (OutboundRequest {
                address,
                config,
                setup: Some(setup),
                completion: CommandCompletion { result: TakeOnceResult::Pending, cancelled: false },
                delivered: false,
                cancellation_enqueued: false,
                route_token: 0,
            }),
    {
        OutboundRequest {
            address,
            config,
            setup: Some(setup),
            completion: CommandCompletion::new(),
            delivered: false,
            cancellation_enqueued: false,
            route_token: 0,
        }
    }

    /// The request after `result` came in.
    pub open spec fn completed(self, result: Result<SlotToken, Error>) -> OutboundRequest {
        OutboundRequest { completion: self.completion.completed(result), ..self }
    }

    /// Takes the setup; it is there once.
    pub fn take_setup(&mut self) -> (setup: Option<ConnectionSetup>)
        ensures
            setup == old(self).setup,
            *final(self) == (OutboundRequest { setup: None, ..*old(self) }),
    {
        self.setup.take()
    }

    /// Claims the one place of this request among the cancellations.
    pub fn try_enqueue_cancellation(&mut self) -> (first: bool)
        ensures
            first == !old(self).cancellation_enqueued,
            *final(self) == (OutboundRequest { cancellation_enqueued: true, ..*old(self) }),
    {
        let first: bool = !self.cancellation_enqueued;
        self.cancellation_enqueued = true;
        first
    }

    /// Hands the result to the waiter; a success counts as delivered.
    pub fn take_result(&mut self) -> (result: Option<Result<SlotToken, Error>>)
        ensures
            result == match old(self).completion.result {
                TakeOnceResult::Ready(value) => Some(value),
                _ => None,
            },
            *final(self) == (OutboundRequest {
                completion: old(self).completion.taken(),
                delivered: old(self).delivered || result matches Some(Ok(_)),
                ..*old(self)
            }),
    {
        let result = self.completion.take_result();
        if let Some(Ok(_)) = &result {
            self.delivered = true;
        }
        result
    }
}

/// A request to listen on an address.
#[derive(Debug)]
pub struct ListenRequest {
    pub address: String,
    pub config: RdmaListenerConfig,
    pub completion: CommandCompletion,
}

impl ListenRequest {
    pub fn new(address: String, config: RdmaListenerConfig) -> (request: Self)
        ensures
            request == (ListenRequest {
                address,
                config,
                completion: CommandCompletion { result: TakeOnceResult::Pending, cancelled: false },
            }),
    {
        ListenRequest { address, config, completion: CommandCompletion::new() }
    }
}

/// What an accept asks for.
#[derive(Debug)]
pub struct AcceptIntent {
    pub config: RdmaConnectionConfig,
    pub setup: Option<ConnectionSetup>,
}

impl AcceptIntent {
    pub fn new(config: RdmaConnectionConfig, setup: ConnectionSetup) -> (intent: Self)
        ensures
            intent == (AcceptIntent { config, setup: Some(setup) }),
    {
        AcceptIntent { config, setup: Some(setup) }
    }

    pub fn into_parts(self) -> (parts: Result<(RdmaConnectionConfig, ConnectionSetup), Error>)
        ensures
            match self.setup {
                Some(setup) => parts == Ok::<(RdmaConnectionConfig, ConnectionSetup), Error>(
                    (self.config, setup),
                ),
                None => parts matches Err(error) && error.is_invalid_config(
                    "accept setup was consumed more than once"@,
                ),
            },
    {
        match self.setup {
            Some(setup) => Ok((self.config, setup)),
            None => Err(Error::invalid("accept setup was consumed more than once")),
        }
    }
}

/// What claiming an undelivered accept found: whether its connection had been
/// delivered, and the connection that was withdrawn.
#[derive(Clone, Copy, Debug, PartialEq, Eq, Structural)]
pub struct UndeliveredAcceptFailure {
    pub delivered: bool,
    pub connection: Option<ConnectionToken>,
}

/// A request to accept an inbound connection.
pub struct AcceptRequest {
    pub token: RequestToken,
    pub intent: Option<AcceptIntent>,
    pub result: TakeOnceResult<ConnectionToken>,
    pub cancelled: bool,
    pub delivered: bool,
    pub route_token: u64,
    pub permit: Option<OwnedSemaphorePermit>,
}

impl AcceptRequest {
    pub fn new(token: RequestToken, intent: AcceptIntent, permit: OwnedSemaphorePermit) -> (request:
        Self)
        ensures
            request == (AcceptRequest {
                token,
                intent: Some(intent),
                result: TakeOnceResult::Pending,
                cancelled: false,
                delivered: false,
                route_token: 0,
                permit: Some(permit),
            }),
    {
        AcceptRequest {
            token,
            intent: Some(intent),
            result: TakeOnceResult::Pending,
            cancelled: false,
            delivered: false,
            route_token: 0,
            permit: Some(permit),
        }
    }

    /// Whether the connection was established and its waiter has not taken it.
    pub open spec fn undelivered_success(self) -> bool {
        self.result matches TakeOnceResult::Ready(Ok(_)) && !self.delivered
    }

    /// The request after `result` came in: the first result stays.
    pub open spec fn completed(self, result: Result<ConnectionToken, Error>) -> AcceptRequest {
        if self.result is Pending {
            AcceptRequest { result: TakeOnceResult::Ready(result), ..self }
        } else {
            self
        }
    }

    /// The request after its success was withdrawn and `error` put in its place.
    pub open spec fn failed(self, error: Error) -> AcceptRequest {
        AcceptRequest {
            result: match self.result {
                TakeOnceResult::Pending => TakeOnceResult::Ready(Err(error)),
                TakeOnceResult::Ready(Ok(_)) => TakeOnceResult::Ready(Err(error)),
                other => other,
            },
            ..self
        }
    }

    /// The request after its waiter asked for the result.
    pub open spec fn taken(self) -> AcceptRequest {
        match self.result {
            TakeOnceResult::Ready(result) => AcceptRequest {
                result: TakeOnceResult::Taken,
                delivered: self.delivered || result is Ok,
                ..self
            },
            _ => self,
        }
    }

    pub fn take_intent(&mut self) -> (intent: Option<AcceptIntent>)
        ensures
            intent == old(self).intent,
            *final(self) == (AcceptRequest { intent: None, ..*old(self) }),
    {
        self.intent.take()
    }

    /// Gives the accept permit back; true when it was still held.
    pub fn release_permit(&mut self) -> (released: bool)
        ensures
            released == old(self).permit is Some,
            *final(self) == (AcceptRequest { permit: None, ..*old(self) }),
    {
        self.permit.take().is_some()
    }

    /// Keeps the first result and wakes the waiter for it.
    pub fn complete_into(
        &mut self,
        result: Result<ConnectionToken, Error>,
        actions: &mut ReactorActions,
    )
        ensures
            *final(self) == old(self).completed(result),
            final(actions)@ == if old(self).result is Pending {
                old(actions)@.push(Action::WakeAccept { request: old(self).token })
            } else {
                old(actions)@
            },
    {
        if let TakeOnceResult::Pending = &self.result {
            self.result = TakeOnceResult::Ready(result);
            actions.push(Action::WakeAccept { request: self.token });
        }
    }

    /// Keeps a success as the first result; a cancelled waiter is not woken for it.
    pub fn complete_success_into(
        &mut self,
        connection: ConnectionToken,
        actions: &mut ReactorActions,
    )
        ensures
            *final(self) == old(self).completed(Ok(connection)),
            final(actions)@ == if old(self).result is Pending && !old(self).cancelled {
                old(actions)@.push(Action::WakeAccept { request: old(self).token })
            } else {
                old(actions)@
            },
    {
        if let TakeOnceResult::Pending = &self.result {
            self.result = TakeOnceResult::Ready(Ok(connection));
            if !self.cancelled {
                actions.push(Action::WakeAccept { request: self.token });
            }
        }
    }

    /// Puts `error` in the place of a result that was not handed over, and wakes the waiter.
    pub fn claim_undelivered_failure_into(
        &mut self,
        error: Error,
        actions: &mut ReactorActions,
    ) -> (failure: UndeliveredAcceptFailure)
        ensures
            *final(self) == old(self).failed(error),
            failure.delivered == old(self).delivered,
            failure.connection == match old(self).result {
                TakeOnceResult::Ready(Ok(connection)) => Some(connection),
                _ => None,
            },
            final(actions)@ == old(actions)@.push(Action::WakeAccept { request: old(self).token }),
    {
        let connection = match &self.result {
            TakeOnceResult::Ready(Ok(connection)) => Some(*connection),
            _ => None,
        };
        let replace: bool = match &self.result {
            TakeOnceResult::Pending | TakeOnceResult::Ready(Ok(_)) => true,
            _ => false,
        };
        if replace {
            self.result = TakeOnceResult::Ready(Err(error));
        }
        actions.push(Action::WakeAccept { request: self.token });
        UndeliveredAcceptFailure { delivered: self.delivered, connection }
    }

    /// As `claim_undelivered_failure_into`, saying only whether the connection had been delivered.
    pub fn fail_undelivered_into(&mut self, error: Error, actions: &mut ReactorActions) -> (delivered:
        bool)
        ensures
            *final(self) == old(self).failed(error),
            delivered == old(self).delivered,
            final(actions)@ == old(actions)@.push(Action::WakeAccept { request: old(self).token }),
    {
        self.claim_undelivered_failure_into(error, actions).delivered
    }

    /// Hands the result over, if it is there and was not handed over before.
    pub fn take_result(&mut self) -> (result: Option<Result<ConnectionToken, Error>>)
        ensures
            *final(self) == old(self).taken(),
            result == match old(self).result {
                TakeOnceResult::Ready(value) => Some(value),
                _ => None,
            },
    {
        let mut current: TakeOnceResult<ConnectionToken> = TakeOnceResult::Taken;
        core::mem::swap(&mut self.result, &mut current);
        match current {
            TakeOnceResult::Ready(value) => {
                if value.is_ok() {
                    self.delivered = true;
                }
                Some(value)
            },
            TakeOnceResult::Pending => {
                self.result = TakeOnceResult::Pending;
                None
            },
            TakeOnceResult::Taken => None,
        }
    }

    pub fn cancel(&mut self)
        ensures
            *final(self) == (AcceptRequest { cancelled: true, ..*old(self) }),
    {
        self.cancelled = true;
    }

    pub fn has_undelivered_success(&self) -> (held: bool)
        ensures
            held == self.undelivered_success(),
    {
        match &self.result {
            TakeOnceResult::Ready(Ok(_)) => !self.delivered,
            _ => false,
        }
    }
}

/// Whether a request that the table still holds was cancelled.
pub open spec fn accept_cancelled(
    requests: Map<SlotToken, AcceptRequest>,
    request: RequestToken,
) -> bool {
    requests.contains_key(request) && requests[request].cancelled
}

/// Whether a request that the table still holds was delivered.
pub open spec fn accept_delivered(
    requests: Map<SlotToken, AcceptRequest>,
    request: RequestToken,
) -> bool {
    requests.contains_key(request) && requests[request].delivered
}

pub fn is_accept_cancelled(requests: &SlotRegistry<AcceptRequest>, request: RequestToken) -> (cancelled:
    bool)
    requires
        requests.wf(),
    ensures
        cancelled == accept_cancelled(requests@.entries, request),
{
    match requests.get(request) {
        Some(value) => value.cancelled,
        None => false,
    }
}

pub fn is_accept_delivered(requests: &SlotRegistry<AcceptRequest>, request: RequestToken) -> (delivered:
    bool)
    requires
        requests.wf(),
    ensures
        delivered == accept_delivered(requests@.entries, request),
{
    match requests.get(request) {
        Some(value) => value.delivered,
        None => false,
    }
}

/// A connection that its waiter has taken is not withdrawn: claiming the request
/// afterwards finds it delivered and has nothing to withdraw.
pub proof fn delivered_connection_is_not_withdrawn(request: AcceptRequest, error: Error)
    requires
        request.undelivered_success(),
    ensures
        request.taken().delivered,
        request.taken().failed(error) == request.taken(),
{
}

/// Only the first result of a request counts.
pub proof fn first_result_stays(
    request: AcceptRequest,
    first: Result<ConnectionToken, Error>,
    second: Result<ConnectionToken, Error>,
)
    ensures
        request.completed(first).completed(second) == request.completed(first),
{
}

/// A connection that its waiter has taken is not withdrawn by a late cancellation.
pub proof fn taken_connect_is_not_withdrawn(completion: CommandCompletion, error: Error)
    requires
        completion.result is Ready,
    ensures
        completion.taken().cancelled_with(error).result == completion.taken().result,
{
}

/// A connect that was cancelled before its waiter took a connection never succeeds,
/// whatever result comes in later.
pub proof fn cancelled_connect_never_succeeds(
    completion: CommandCompletion,
    error: Error,
    late: Result<SlotToken, Error>,
)
    ensures
        !(completion.cancelled_with(error).completed(late).result matches TakeOnceResult::Ready(
            Ok(_),
        )),
{
}

} // verus!
