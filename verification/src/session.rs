//! What the frontends of a session may do, and what the I/O side reports to it.

use vstd::prelude::*;

use crate::connection::{ConnectionState, RdmaConnectionIdentity};
use crate::drain::{drained, quarantine_recovered, retirement_requested};
use crate::error::Error;
use crate::listener::{ListenerAdmission, ListenerEntry, RdmaListenerConfig};
use crate::registry::{
    ConnectionEntry, ConnectionRegistry, Lifecycle, LiveIoConnectionProof, RegistryView,
};
use crate::routes::ConnectionCmRoute;
use crate::terminal::{MemoizedTerminalResult, SessionCloseState, SessionListenerCloseState};
use crate::token::{ConnectionToken, ListenerToken, OperationToken};

verus! {

/// Why nothing new is admitted: the engine's failure, else what its command queue
/// says, else that it is gone. `commands` is `None` once the queue is gone.
pub open spec fn admission_refusal(
    outcome: Option<MemoizedTerminalResult>,
    commands: Option<Option<Error>>,
) -> Option<Error> {
    match outcome {
        Some(ended) => ended.failure(),
        None => match commands {
            Some(refusal) => refusal,
            None => Some(Error::DriverShutdown),
        },
    }
}

pub fn admission_error(
    outcome: Option<MemoizedTerminalResult>,
    commands: Option<Option<Error>>,
) -> (error: Option<Error>)
    ensures
        error == admission_refusal(outcome, commands),
{
    match outcome {
        Some(ended) => ended.error(),
        None => match commands {
            Some(refusal) => refusal,
            None => Some(Error::DriverShutdown),
        },
    }
}

/// Whether a shutdown was asked for; a command queue that is gone asks for one.
pub fn shutdown_requested(commands_closed: Option<bool>) -> (requested: bool)
    ensures
        requested == (commands_closed != Some(false)),
{
    match commands_closed {
        Some(closed) => closed,
        None => true,
    }
}

/// What a close waiter gets, if it need not wait: what its own close shows, else the
/// outcome of the engine.
pub open spec fn close_observation(
    own: Option<MemoizedTerminalResult>,
    engine: Option<MemoizedTerminalResult>,
) -> Option<Result<(), Error>> {
    match own {
        Some(outcome) => Some(outcome.result()),
        None => match engine {
            Some(outcome) => Some(outcome.result()),
            None => None,
        },
    }
}

fn observe_close(
    own: Option<MemoizedTerminalResult>,
    engine: Option<MemoizedTerminalResult>,
) -> (result: Option<Result<(), Error>>)
    ensures
        result == close_observation(own, engine),
{
    match own {
        Some(outcome) => Some(outcome.into_result()),
        None => match engine {
            Some(outcome) => Some(outcome.into_result()),
            None => None,
        },
    }
}

/// What an operation does.
#[derive(Clone, Copy, Debug, PartialEq, Eq, Structural)]
pub enum OperationKind {
    Send,
    Recv,
    Write,
    Read,
}

/// An operation that was not admitted yet; it owns its memory region.
#[derive(Debug)]
pub struct RdmaOperation<M, R> {
    pub connection: ConnectionToken,
    pub kind: OperationKind,
    pub mr: M,
    /// The peer's memory, for a write or a read.
    pub remote: Option<R>,
    /// Offset and length within the region.
    pub range: Option<(usize, usize)>,
}

/// A connection as its user holds it: an identity, and no resource.
#[derive(Debug)]
pub struct RdmaConnection {
    pub identity: RdmaConnectionIdentity,
    pub local_addr: Option<String>,
    pub peer_addr: Option<String>,
    pub route: Option<ConnectionCmRoute>,
}

fn clone_address(address: &Option<String>) -> (copy: Option<String>)
    ensures
        copy == *address,
{
    match address {
        Some(known) => Some(known.clone()),
        None => None,
    }
}

impl Clone for RdmaConnection {
    fn clone(&self) -> (copy: Self)
        ensures
            copy == *self,
    {
        RdmaConnection {
            identity: self.identity,
            local_addr: clone_address(&self.local_addr),
            peer_addr: clone_address(&self.peer_addr),
            route: self.route,
        }
    }
}

impl RdmaConnection {
    /// The handle of a registered connection.
    pub fn from_registered(state: &ConnectionState, route: Option<ConnectionCmRoute>) -> (connection:
        Self)
        ensures
            connection.identity.token() == state.token,
            connection.identity.queue_pair() == state.qp_num,
            connection.local_addr == state.local_addr,
            connection.peer_addr == state.peer_addr,
            connection.route == route,
    {
        RdmaConnection {
            identity: state.identity(),
            local_addr: clone_address(&state.local_addr),
            peer_addr: clone_address(&state.peer_addr),
            route,
        }
    }

    /// The local address, as the connection manager reported it.
    pub fn local_addr(&self) -> (address: Result<String, Error>)
        ensures
            match self.local_addr {
                Some(known) => address == Ok::<String, Error>(known),
                None => address matches Err(error) && error.is_invalid_config(
                    "connection local address is unavailable"@,
                ),
            },
    {
        match &self.local_addr {
            Some(address) => Ok(address.clone()),
            None => Err(Error::invalid("connection local address is unavailable")),
        }
    }

    /// The peer's address, as the connection manager reported it.
    pub fn peer_addr(&self) -> (address: Result<String, Error>)
        ensures
            match self.peer_addr {
                Some(known) => address == Ok::<String, Error>(known),
                None => address matches Err(error) && error.is_invalid_config(
                    "connection peer address is unavailable"@,
                ),
            },
    {
        match &self.peer_addr {
            Some(address) => Ok(address.clone()),
            None => Err(Error::invalid("connection peer address is unavailable")),
        }
    }

    pub fn identity(&self) -> (identity: RdmaConnectionIdentity)
        ensures
            identity == self.identity,
    {
        self.identity
    }

    pub fn session_token(&self) -> (token: ConnectionToken)
        ensures
            token == self.identity.token(),
    {
        self.identity.session_token()
    }

    /// A send of `mr`, or of a range of it, given as offset and length.
    pub fn send<M, R>(&self, mr: M, range: Option<(usize, usize)>) -> (operation: RdmaOperation<M, R>)
        ensures
            operation == (RdmaOperation::<M, R> {
                connection: self.identity.token(),
                kind: OperationKind::Send,
                mr,
                remote: None,
                range,
            }),
    {
        RdmaOperation {
            connection: self.session_token(),
            kind: OperationKind::Send,
            mr,
            remote: None,
            range,
        }
    }

    /// A receive into `mr`, or into a range of it.
    pub fn recv<M, R>(&self, mr: M, range: Option<(usize, usize)>) -> (operation: RdmaOperation<M, R>)
        ensures
            operation == (RdmaOperation::<M, R> {
                connection: self.identity.token(),
                kind: OperationKind::Recv,
                mr,
                remote: None,
                range,
            }),
    {
        RdmaOperation {
            connection: self.session_token(),
            kind: OperationKind::Recv,
            mr,
            remote: None,
            range,
        }
    }

    /// A write of `mr`, or of a range of it, to the peer's memory.
    pub fn write<M, R>(&self, mr: M, remote: R, range: Option<(usize, usize)>) -> (operation:
        RdmaOperation<M, R>)
        ensures
            operation == (RdmaOperation::<M, R> {
                connection: self.identity.token(),
                kind: OperationKind::Write,
                mr,
                remote: Some(remote),
                range,
            }),
    {
        RdmaOperation {
            connection: self.session_token(),
            kind: OperationKind::Write,
            mr,
            remote: Some(remote),
            range,
        }
    }

    /// A read of the peer's memory into `mr`, or into a range of it.
    pub fn read<M, R>(&self, mr: M, remote: R, range: Option<(usize, usize)>) -> (operation:
        RdmaOperation<M, R>)
        ensures
            operation == (RdmaOperation::<M, R> {
                connection: self.identity.token(),
                kind: OperationKind::Read,
                mr,
                remote: Some(remote),
                range,
            }),
    {
        RdmaOperation {
            connection: self.session_token(),
            kind: OperationKind::Read,
            mr,
            remote: Some(remote),
            range,
        }
    }

    /// What a close of this connection returns, if it need not wait.
    pub fn observe_close(close: &SessionCloseState, engine: Option<MemoizedTerminalResult>) -> (result:
        Option<Result<(), Error>>)
        ensures
            result == close_observation(close.visible(), engine),
    {
        observe_close(close.outcome(), engine)
    }

    /// Whether a handle that goes asks for the close: the last one does, unless the
    /// connection has retired.
    pub fn drop_requests_close(close: &SessionCloseState, handles: usize) -> (requests: bool)
        ensures
            requests == (handles == 1 && !close.retired),
    {
        handles == 1 && !close.is_retired()
    }
}

/// A listener as its user holds it: a name, and no resource.
#[derive(Debug)]
pub struct RdmaListener {
    pub token: ListenerToken,
    pub local_addr: String,
}

impl Clone for RdmaListener {
    fn clone(&self) -> (copy: Self)
        ensures
            copy == *self,
    {
        RdmaListener { token: self.token, local_addr: self.local_addr.clone() }
    }
}

impl RdmaListener {
    /// The handle of a listener that listens.
    pub fn from_state(state: &ListenerEntry) -> (listener: Self)
        requires
            state.local_addr is Some,
        ensures
            listener.token == state.token,
            Some(listener.local_addr) == state.local_addr,
    {
        RdmaListener { token: state.token, local_addr: state.display_addr() }
    }

    pub fn local_addr(&self) -> (address: Result<String, Error>)
        ensures
            address == Ok::<String, Error>(self.local_addr),
    {
        Ok(self.local_addr.clone())
    }

    /// Whether the engine behind a listener is still there: a frontend that is gone,
    /// or a command queue that is gone, is an error.
    pub fn owners(close: &SessionListenerCloseState, frontend: bool, commands: bool) -> (result: Result<
        (),
        Error,
    >)
        ensures
            result == if !frontend {
                Err::<(), Error>(Error::DriverShutdown)
            } else if commands {
                Ok(())
            } else {
                match close.outcome {
                    Some(MemoizedTerminalResult::Failed(error)) => Err(error),
                    _ => Err(Error::DriverShutdown),
                }
            },
    {
        if !frontend {
            return Err(Error::DriverShutdown);
        }
        if commands {
            return Ok(());
        }
        match &close.outcome {
            Some(MemoizedTerminalResult::Failed(error)) => Err(error.clone()),
            _ => Err(Error::DriverShutdown),
        }
    }

    /// Whether asking for the close of this listener asks its engine for anything: not
    /// once the close has its outcome, nor once the engine is gone.
    pub fn requests_close(close: &SessionListenerCloseState, frontend: bool, commands: bool) -> (asks:
        bool)
        ensures
            asks == (close.outcome is None && frontend && commands),
    {
        close.outcome().is_none() && Self::owners(close, frontend, commands).is_ok()
    }

    /// What a close of this listener returns, if it need not wait.
    pub fn observe_close(
        close: &SessionListenerCloseState,
        engine: Option<MemoizedTerminalResult>,
    ) -> (result: Option<Result<(), Error>>)
        ensures
            result == close_observation(close.outcome, engine),
    {
        let own = match &close.outcome {
            Some(outcome) => Some(outcome.clone()),
            None => None,
        };
        observe_close(own, engine)
    }
}

/// Admits an accept once it has its permit, or says why not: its configuration, the
/// listener's close, the engine's end, in this order.
pub fn admit_accept<P>(
    config_check: Result<(), Error>,
    permit: Option<P>,
    refusal: Option<Error>,
    admission: &ListenerAdmission,
    close: &SessionListenerCloseState,
) -> (admitted: Result<P, Error>)
    ensures
        admitted == match (config_check, permit) {
            (Err(error), _) => Err(error),
            (Ok(()), None) => Err(admission.refusal(*close)),
            (Ok(()), Some(held)) => match refusal {
                Some(error) => Err(error),
                None => if admission.open {
                    Ok(held)
                } else {
                    Err(admission.refusal(*close))
                },
            },
        },
{
    if let Err(error) = config_check {
        return Err(error);
    }
    match permit {
        None => Err(admission.close_error(close)),
        Some(held) => match refusal {
            Some(error) => Err(error),
            None => if admission.is_open() {
                Ok(held)
            } else {
                Err(admission.close_error(close))
            },
        },
    }
}

/// Admits a listen once it has its permit, or says why not.
pub fn admit_listen<P>(
    config: &RdmaListenerConfig,
    permit: Option<P>,
    refusal: Option<Error>,
) -> (admitted: Result<P, Error>)
    ensures
        if !config.valid() {
            admitted matches Err(error) && error.is_invalid_config(config.refusal())
        } else {
            admitted == match (permit, refusal) {
                (_, Some(error)) => Err(error),
                (None, None) => Err(Error::DriverShutdown),
                (Some(held), None) => Ok(held),
            }
        },
{
    if let Err(error) = config.validate() {
        return Err(error);
    }
    match refusal {
        Some(error) => Err(error),
        None => match permit {
            Some(held) => Ok(held),
            None => Err(Error::DriverShutdown),
        },
    }
}

/// Admits a connect once a lane and a place were asked for, or says why not. A place
/// that was refused because the engine is ending is explained by its end.
pub fn admit_connect<P>(
    config_check: Result<(), Error>,
    lane: bool,
    place: Result<P, Error>,
    refusal: Option<Error>,
) -> (admitted: Result<P, Error>)
    ensures
        admitted == match config_check {
            Err(error) => Err(error),
            Ok(()) => if !lane {
                Err(
                    match refusal {
                        Some(error) => error,
                        None => Error::DriverShutdown,
                    },
                )
            } else {
                match (place, refusal) {
                    (Err(Error::DriverShutdown), Some(error)) => Err(error),
                    (Err(error), _) => Err(error),
                    (Ok(_), Some(error)) => Err(error),
                    (Ok(held), None) => Ok(held),
                }
            },
        },
{
    if let Err(error) = config_check {
        return Err(error);
    }
    if !lane {
        return match refusal {
            Some(error) => Err(error),
            None => Err(Error::DriverShutdown),
        };
    }
    match place {
        Err(Error::DriverShutdown) => match refusal {
            Some(error) => Err(error),
            None => Err(Error::DriverShutdown),
        },
        Err(error) => Err(error),
        Ok(held) => match refusal {
            Some(error) => Err(error),
            None => Ok(held),
        },
    }
}

/// Where a completion goes.
pub enum CompletionRoute {
    /// Its connection is gone.
    Stale,
    /// To its connection, with evidence that the connection is live, where it is.
    Connection(Option<LiveIoConnectionProof>),
}

/// Finds where a completion goes.
pub fn route_completion(
    connections: &ConnectionRegistry,
    connection: ConnectionToken,
    qp_num: u32,
) -> (route: CompletionRoute)
    requires
        connections.wf(),
    ensures
        if !connections@.connected(connection) {
            route is Stale
        } else {
            route matches CompletionRoute::Connection(evidence) && live_evidence(
                connections@,
                connection,
                qp_num,
                evidence,
            )
        },
{
    if connections.connection(connection).is_none() {
        return CompletionRoute::Stale;
    }
    CompletionRoute::Connection(connections.prove_live_io(connection, qp_num))
}

/// Whether `evidence` is what is known of a connection's being live on a queue pair.
pub open spec fn live_evidence(
    view: RegistryView,
    connection: ConnectionToken,
    qp_num: u32,
    evidence: Option<LiveIoConnectionProof>,
) -> bool {
    &&& evidence is Some <==> ConnectionRegistry::live_io(view, connection, qp_num)
    &&& evidence matches Some(held) ==> held.token() == connection && held.queue_pair() == qp_num
}

/// What the I/O side reports of one operation.
#[derive(Clone, Copy, Debug, PartialEq, Eq, Structural)]
pub enum OperationQuarantineEffect {
    Added { connection: ConnectionToken, operation: OperationToken },
    Cleared { connection: ConnectionToken, operation: OperationToken },
}

/// What the I/O side reports after a step.
pub struct IoCoreEffects {
    pub quarantine: Vec<OperationQuarantineEffect>,
    pub drained: Vec<ConnectionToken>,
}

/// Whether `after` is the registry once an operation was quarantined.
pub open spec fn operation_added(
    before: RegistryView,
    after: RegistryView,
    connection: ConnectionToken,
    operation: OperationToken,
) -> bool {
    if before.has(connection) && !before.entry(connection).is_live(Lifecycle::Retired) {
        &&& after == before.set(connection, after.entry(connection))
        &&& ConnectionRegistry::operation_quarantined(
            before.entry(connection),
            after.entry(connection),
            operation,
        )
    } else {
        after == before
    }
}

/// Whether `after` is the registry once the quarantine of an operation was lifted.
pub open spec fn operation_cleared(
    before: RegistryView,
    after: RegistryView,
    connection: ConnectionToken,
    operation: OperationToken,
) -> bool {
    let held = before.connection(connection).io_ledger.quarantined@;
    if before.connected(connection) && before.entry(connection).quarantine is Some && held.contains(
        operation,
    ) {
        let kept = after.connection(connection).io_ledger;
        &&& after.connected(connection)
        &&& after == before.set(
            connection,
            ConnectionEntry {
                quarantine: if before.entry(connection).quarantine == Some(false) {
                    None
                } else {
                    Some(true)
                },
                connection: Some(
                    ConnectionState { io_ledger: kept, ..before.connection(connection) },
                ),
                ..before.entry(connection)
            },
        )
        &&& kept.accepted == before.connection(connection).io_ledger.accepted
        &&& kept.completion_work == before.connection(connection).io_ledger.completion_work
        &&& exists|i: int|
            0 <= i < held.len() && held[i] == operation && #[trigger] held.remove(i)
                == kept.quarantined@
    } else {
        after == before
    }
}

/// Whether `after` is the registry once one report was taken in.
pub open spec fn effect_applied(
    before: RegistryView,
    after: RegistryView,
    effect: OperationQuarantineEffect,
) -> bool {
    match effect {
        OperationQuarantineEffect::Added { connection, operation } => operation_added(
            before,
            after,
            connection,
            operation,
        ),
        OperationQuarantineEffect::Cleared { connection, operation } => operation_cleared(
            before,
            after,
            connection,
            operation,
        ),
    }
}

/// Whether `states` are the registries as reports were taken in one after another.
pub open spec fn effects_applied(
    states: Seq<RegistryView>,
    effects: Seq<OperationQuarantineEffect>,
) -> bool {
    &&& states.len() == effects.len() + 1
    &&& forall|i: int|
        #![trigger effects[i]]
        0 <= i < effects.len() ==> effect_applied(states[i], states[i + 1], effects[i])
}

/// The registry once it was taken in that a connection has drained: one whose close
/// began leaves quarantine and goes to retirement.
pub open spec fn drain_applied(view: RegistryView, token: ConnectionToken) -> RegistryView {
    if view.has(token) && view.entry(token).close_started() {
        retirement_requested(drained(quarantine_recovered(view, token), token), token)
    } else {
        view
    }
}

/// The registry once it was taken in that connections have drained, one after another.
pub open spec fn drains_applied(view: RegistryView, tokens: Seq<ConnectionToken>) -> RegistryView
    decreases tokens.len(),
{
    if tokens.len() == 0 {
        view
    } else {
        drain_applied(drains_applied(view, tokens.drop_last()), tokens.last())
    }
}

/// Takes in what the I/O side reports: first every operation, then every connection
/// that has drained.
pub fn apply_io_effects(connections: &mut ConnectionRegistry, effects: &IoCoreEffects)
    requires
        old(connections).wf(),
    ensures
        final(connections).wf(),
        exists|states: Seq<RegistryView>| #[trigger]
            effects_applied(states, effects.quarantine@) && states[0] == old(connections)@
                && final(connections)@ == drains_applied(states.last(), effects.drained@),
{
    let ghost mut states: Seq<RegistryView> = seq![connections@];
    let mut next: usize = 0;
    while next < effects.quarantine.len()
        invariant
            connections.wf(),
            next <= effects.quarantine.len(),
            states[0] == old(connections)@,
            states.last() == connections@,
            effects_applied(states, effects.quarantine@.take(next as int)),
        decreases effects.quarantine.len() - next,
    {
        let effect: OperationQuarantineEffect = effects.quarantine[next];
        let ghost before = states;
        match effect {
            OperationQuarantineEffect::Added { connection, operation } => {
                let _ = connections.track_operation_quarantine(connection, operation);
            },
            OperationQuarantineEffect::Cleared { connection, operation } => {
                let _ = connections.clear_operation_quarantine(connection, operation);
            },
        }
        proof {
            let taken = effects.quarantine@.take(next as int);
            let grown = effects.quarantine@.take(next + 1);
            assert(grown =~= taken.push(effect));
            assert(effect_applied(before.last(), connections@, effect));
            states = before.push(connections@);
            assert forall|i: int|
                #![trigger grown[i]]
                0 <= i < grown.len() implies effect_applied(states[i], states[i + 1], grown[i]) by {
                if i < taken.len() {
                    assert(grown[i] == taken[i]);
                }
            }
        }
        next = next + 1;
    }
    assert(effects.quarantine@.take(next as int) =~= effects.quarantine@);
    let ghost middle = connections@;
    let mut at: usize = 0;
    while at < effects.drained.len()
        invariant
            connections.wf(),
            at <= effects.drained.len(),
            connections@ == drains_applied(middle, effects.drained@.take(at as int)),
        decreases effects.drained.len() - at,
    {
        let token: ConnectionToken = effects.drained[at];
        proof {
            assert(effects.drained@.take(at + 1).drop_last() =~= effects.drained@.take(at as int));
        }
        if connections.close_started(token) {
            let _ = connections.clear_bundle_quarantine(token);
            let _ = connections.mark_drained_once(token);
            let _ = connections.request_retirement(token);
        }
        at = at + 1;
    }
    assert(effects.drained@.take(at as int) =~= effects.drained@);
}

/// A connection that has drained goes to retirement once, however often it is reported.
pub proof fn drained_connections_retire_once(view: RegistryView, token: ConnectionToken)
    requires
        view.has(token),
        view.entry(token).wf(),
    ensures
        drain_applied(drain_applied(view, token), token).retirements == drain_applied(
            view,
            token,
        ).retirements,
{
    let once = drain_applied(view, token);
    assert(once.has(token));
}

} // verus!
