//! One engine-owned connection: its resources, its close state and its ledger.

use vstd::prelude::*;

use crate::actions::{Action, IoTerminalEvent, ReactorActions};
use crate::admission::{BundleMark, ConnectionReservation};
use crate::config::QpCapabilities;
use crate::error::Error;
use crate::terminal::{MemoizedTerminalResult, SessionCloseState};
use crate::token::{ConnectionToken, OperationToken};

verus! {

/// The identity of a connection as its users see it.
#[derive(Clone, Copy, Debug, PartialEq, Eq, Hash, Structural)]
pub struct RdmaConnectionIdentity {
    slot: u32,
    generation: u32,
    qp_num: u32,
}

impl RdmaConnectionIdentity {
    pub closed spec fn token(self) -> ConnectionToken {
        ConnectionToken { slot: self.slot, generation: self.generation }
    }

    pub closed spec fn queue_pair(self) -> u32 {
        self.qp_num
    }

    /// The provider's number of the connection's queue pair.
    pub fn qp_num(&self) -> (qp_num: u32)
        ensures
            qp_num == self.queue_pair(),
    {
        self.qp_num
    }

    pub fn registry_slot(&self) -> (slot: u32)
        ensures
            slot == self.token().slot,
    {
        self.slot
    }

    pub fn registration_generation(&self) -> (generation: u32)
        ensures
            generation == self.token().generation,
    {
        self.generation
    }

    pub fn session_token(&self) -> (token: ConnectionToken)
        ensures
            token == self.token(),
    {
        ConnectionToken { slot: self.slot, generation: self.generation }
    }
}

/// Sole ownership of one connection-manager identifier.
#[derive(Debug)]
pub struct CmId {
    pub raw_id: u64,
    pub context_key: u64,
    pub context_token: Option<u64>,
}

/// The queue pair and the identifier that the engine made for a connection.
#[derive(Debug)]
pub struct VerbsConnectionResources {
    pub has_qp: bool,
    pub qp_num: u32,
    pub capabilities: QpCapabilities,
    pub cm_owner: Option<CmId>,
}

impl VerbsConnectionResources {
    pub fn new_shared(qp_num: u32, capabilities: QpCapabilities, cm_id: CmId) -> (resources: Self)
        ensures
            resources == (VerbsConnectionResources {
                has_qp: true,
                qp_num,
                capabilities,
                cm_owner: Some(cm_id),
            }),
    {
        VerbsConnectionResources { has_qp: true, qp_num, capabilities, cm_owner: Some(cm_id) }
    }

    /// Whether sends may be handed to the queue pair.
    pub fn post_send_owned(&self) -> (result: Result<(), Error>)
        ensures
            result == if self.has_qp {
                Ok::<(), Error>(())
            } else {
                Err(Error::TransportClosed)
            },
    {
        if self.has_qp {
            Ok(())
        } else {
            Err(Error::TransportClosed)
        }
    }

    /// Whether receives may be handed to the queue pair.
    pub fn post_recv_owned(&self) -> (result: Result<(), Error>)
        ensures
            result == if self.has_qp {
                Ok::<(), Error>(())
            } else {
                Err(Error::TransportClosed)
            },
    {
        self.post_send_owned()
    }
}

/// What carries a connection's posts: engine-made resources, or a stand-in.
#[derive(Debug)]
pub enum ConnectionPoster {
    Synthetic { qp_num: u32, capabilities: Option<QpCapabilities> },
    Verbs(VerbsConnectionResources),
}

impl ConnectionPoster {
    pub open spec fn queue_pair(self) -> u32 {
        match self {
            ConnectionPoster::Synthetic { qp_num, .. } => qp_num,
            ConnectionPoster::Verbs(resources) => resources.qp_num,
        }
    }

    pub open spec fn granted(self) -> Option<QpCapabilities> {
        match self {
            ConnectionPoster::Synthetic { capabilities, .. } => capabilities,
            ConnectionPoster::Verbs(resources) => Some(resources.capabilities),
        }
    }

    /// Whether a queue pair is there to act on.
    pub open spec fn holds_qp(self) -> bool {
        match self {
            ConnectionPoster::Synthetic { .. } => true,
            ConnectionPoster::Verbs(resources) => resources.has_qp,
        }
    }

    /// The identifier of engine-made resources, as long as they have it.
    pub open spec fn cm_owner(self) -> Option<CmId> {
        match self {
            ConnectionPoster::Synthetic { .. } => None,
            ConnectionPoster::Verbs(resources) => resources.cm_owner,
        }
    }

    pub fn qp_num(&self) -> (qp_num: u32)
        ensures
            qp_num == self.queue_pair(),
    {
        match self {
            ConnectionPoster::Synthetic { qp_num, .. } => *qp_num,
            ConnectionPoster::Verbs(resources) => resources.qp_num,
        }
    }

    pub fn capabilities(&self) -> (capabilities: Option<QpCapabilities>)
        ensures
            capabilities == self.granted(),
    {
        match self {
            ConnectionPoster::Synthetic { capabilities, .. } => *capabilities,
            ConnectionPoster::Verbs(resources) => Some(resources.capabilities),
        }
    }

    pub fn has_qp(&self) -> (held: bool)
        ensures
            held == self.holds_qp(),
    {
        match self {
            ConnectionPoster::Synthetic { .. } => true,
            ConnectionPoster::Verbs(resources) => resources.has_qp,
        }
    }

    pub fn uses_engine_resources(&self) -> (engine_made: bool)
        ensures
            engine_made == (*self is Verbs),
    {
        match self {
            ConnectionPoster::Synthetic { .. } => false,
            ConnectionPoster::Verbs(_) => true,
        }
    }

    /// The identifier on which a connect request goes out, or why none can.
    pub fn connect(&self) -> (target: Result<u64, Error>)
        ensures
            match self {
                ConnectionPoster::Synthetic { .. } => target matches Err(error)
                    && error.is_invalid_config(
                    "synthetic connection cannot initiate RDMA-CM connect"@,
                ),
                ConnectionPoster::Verbs(resources) => match resources.cm_owner {
                    Some(cm_id) => target == Ok::<u64, Error>(cm_id.raw_id),
                    None => target == Err::<u64, Error>(Error::TransportClosed),
                },
            },
    {
        match self {
            ConnectionPoster::Synthetic { .. } => Err(
                Error::invalid("synthetic connection cannot initiate RDMA-CM connect"),
            ),
            ConnectionPoster::Verbs(resources) => match &resources.cm_owner {
                Some(cm_id) => Ok(cm_id.raw_id),
                None => Err(Error::TransportClosed),
            },
        }
    }

    /// The identifier on which an accept goes out, or why none can.
    pub fn accept(&self) -> (target: Result<u64, Error>)
        ensures
            match self {
                ConnectionPoster::Synthetic { .. } => target matches Err(error)
                    && error.is_invalid_config(
                    "synthetic connection cannot initiate RDMA-CM accept"@,
                ),
                ConnectionPoster::Verbs(resources) => match resources.cm_owner {
                    Some(cm_id) => target == Ok::<u64, Error>(cm_id.raw_id),
                    None => target == Err::<u64, Error>(Error::TransportClosed),
                },
            },
    {
        match self {
            ConnectionPoster::Synthetic { .. } => Err(
                Error::invalid("synthetic connection cannot initiate RDMA-CM accept"),
            ),
            ConnectionPoster::Verbs(resources) => match &resources.cm_owner {
                Some(cm_id) => Ok(cm_id.raw_id),
                None => Err(Error::TransportClosed),
            },
        }
    }

    /// The identifier on which a reject goes out, or why none can.
    pub fn reject(&self) -> (target: Result<u64, Error>)
        ensures
            match self {
                ConnectionPoster::Synthetic { .. } => target matches Err(error)
                    && error.is_invalid_config(
                    "synthetic connection cannot reject an RDMA-CM child"@,
                ),
                ConnectionPoster::Verbs(resources) => match resources.cm_owner {
                    Some(cm_id) => target == Ok::<u64, Error>(cm_id.raw_id),
                    None => target == Err::<u64, Error>(Error::TransportClosed),
                },
            },
    {
        match self {
            ConnectionPoster::Synthetic { .. } => Err(
                Error::invalid("synthetic connection cannot reject an RDMA-CM child"),
            ),
            ConnectionPoster::Verbs(resources) => match &resources.cm_owner {
                Some(cm_id) => Ok(cm_id.raw_id),
                None => Err(Error::TransportClosed),
            },
        }
    }

    /// The poster after the provider answered a destroy of its queue pair.
    pub open spec fn after_destroy(self, reply: Result<bool, Error>) -> ConnectionPoster {
        match self {
            ConnectionPoster::Verbs(resources) if reply is Ok => ConnectionPoster::Verbs(
                VerbsConnectionResources { has_qp: false, ..resources },
            ),
            other => other,
        }
    }

    /// What a destroy of the queue pair reports: true when this destroy took it,
    /// false when there was none to take.
    pub open spec fn destroyed(self, reply: Result<bool, Error>) -> Result<bool, Error> {
        match self {
            ConnectionPoster::Synthetic { .. } => reply,
            ConnectionPoster::Verbs(resources) => if !resources.has_qp {
                Ok(false)
            } else {
                match reply {
                    Ok(_) => Ok(true),
                    Err(error) => Err(error),
                }
            },
        }
    }

    /// Takes in the provider's answer to a destroy of the queue pair. A failed
    /// destroy keeps the queue pair.
    pub fn destroy_qp(&mut self, reply: Result<bool, Error>) -> (result: Result<bool, Error>)
        ensures
            result == old(self).destroyed(reply),
            *final(self) == if old(self).holds_qp() {
                old(self).after_destroy(reply)
            } else {
                *old(self)
            },
    {
        match self {
            ConnectionPoster::Synthetic { .. } => reply,
            ConnectionPoster::Verbs(resources) => {
                if !resources.has_qp {
                    return Ok(false);
                }
                match reply {
                    Ok(_) => {
                        resources.has_qp = false;
                        Ok(true)
                    },
                    Err(error) => Err(error),
                }
            },
        }
    }

    /// Gives up the identifier of engine-made resources.
    pub fn take_cm_owner(&mut self) -> (cm_id: Option<CmId>)
        ensures
            cm_id == old(self).cm_owner(),
            *final(self) == match *old(self) {
                ConnectionPoster::Verbs(resources) => ConnectionPoster::Verbs(
                    VerbsConnectionResources { cm_owner: None, ..resources },
                ),
                other => other,
            },
    {
        match self {
            ConnectionPoster::Synthetic { .. } => None,
            ConnectionPoster::Verbs(resources) => resources.cm_owner.take(),
        }
    }
}

/// Evidence that one queue pair was destroyed, made once for it.
#[derive(Debug)]
pub struct QpDestructionProof {
    connection: ConnectionToken,
    qp_num: u32,
}

impl QpDestructionProof {
    pub closed spec fn proven_connection(self) -> ConnectionToken {
        self.connection
    }

    pub closed spec fn proven_qp_num(self) -> u32 {
        self.qp_num
    }

    pub(crate) fn mint(connection: ConnectionToken, qp_num: u32) -> (proof_value: Self)
        ensures
            proof_value.proven_connection() == connection,
            proof_value.proven_qp_num() == qp_num,
    {
        QpDestructionProof { connection, qp_num }
    }

    pub fn connection(&self) -> (connection: ConnectionToken)
        ensures
            connection == self.proven_connection(),
    {
        self.connection
    }

    pub fn qp_num(&self) -> (qp_num: u32)
        ensures
            qp_num == self.proven_qp_num(),
    {
        self.qp_num
    }
}

/// Whether a destroy took the queue pair or found it gone.
#[derive(Clone, Copy, Debug, PartialEq, Eq, Structural)]
pub enum QpDestroyStatus {
    DestroyedNow,
    AlreadyDestroyed,
}

/// The operations that a connection's queue pair has accepted and not completed.
#[derive(Debug)]
pub struct ConnectionIoState {
    pub accepted: Vec<OperationToken>,
    pub quarantined: Vec<OperationToken>,
    pub completion_work: bool,
}

impl ConnectionIoState {
    pub fn new() -> (ledger: Self)
        ensures
            ledger.accepted@ == Seq::<OperationToken>::empty(),
            ledger.quarantined@ == Seq::<OperationToken>::empty(),
            !ledger.completion_work,
    {
        ConnectionIoState { accepted: Vec::new(), quarantined: Vec::new(), completion_work: false }
    }

    fn position(tokens: &Vec<OperationToken>, token: OperationToken) -> (at: Option<usize>)
        ensures
            match at {
                Some(i) => {
                    &&& i < tokens@.len()
                    &&& tokens@[i as int] == token
                },
                None => !tokens@.contains(token),
            },
    {
        let mut i: usize = 0;
        while i < tokens.len()
            invariant
                i <= tokens.len(),
                forall|j: int| 0 <= j < i ==> tokens@[j] != token,
            decreases tokens.len() - i,
        {
            if tokens[i] == token {
                return Some(i);
            }
            i = i + 1;
        }
        None
    }

    pub fn accepted_count(&self) -> (count: usize)
        ensures
            count == self.accepted@.len(),
    {
        self.accepted.len()
    }

    pub fn has_completion_work(&self) -> (pending: bool)
        ensures
            pending == self.completion_work,
    {
        self.completion_work
    }

    pub fn add_accepted(&mut self, token: OperationToken)
        ensures
            final(self).accepted@ == old(self).accepted@.push(token),
            final(self).quarantined == old(self).quarantined,
            final(self).completion_work == old(self).completion_work,
    {
        self.accepted.push(token);
    }

    /// Takes one occurrence of `token` out of the accepted set.
    pub fn remove_accepted(&mut self, token: OperationToken) -> (removed: bool)
        ensures
            removed == old(self).accepted@.contains(token),
            final(self).accepted@.to_multiset() == if removed {
                old(self).accepted@.to_multiset().remove(token)
            } else {
                old(self).accepted@.to_multiset()
            },
            final(self).quarantined == old(self).quarantined,
            final(self).completion_work == old(self).completion_work,
    {
        match Self::position(&self.accepted, token) {
            Some(i) => {
                self.accepted.remove(i);
                proof {
                    broadcast use vstd::seq_lib::group_to_multiset_ensures;

                }
                true
            },
            None => false,
        }
    }

    /// The first accepted operations, no more than `limit`.
    pub fn accepted_tokens_bounded(&self, limit: usize) -> (tokens: Vec<OperationToken>)
        ensures
            tokens@ == self.accepted@.take(
                if limit <= self.accepted@.len() {
                    limit as int
                } else {
                    self.accepted@.len() as int
                },
            ),
    {
        let mut tokens: Vec<OperationToken> = Vec::new();
        while tokens.len() < limit && tokens.len() < self.accepted.len()
            invariant
                tokens@.len() <= self.accepted@.len(),
                tokens@.len() <= limit,
                tokens@ == self.accepted@.take(tokens@.len() as int),
            decreases self.accepted.len() - tokens.len(),
        {
            let next: OperationToken = self.accepted[tokens.len()];
            tokens.push(next);
            assert(tokens@ =~= self.accepted@.take(tokens@.len() as int));
        }
        tokens
    }

    pub fn quarantined_operation_count(&self) -> (count: usize)
        ensures
            count == self.quarantined@.len(),
    {
        self.quarantined.len()
    }

    /// The ledger with `token` among its quarantined operations.
    pub open spec fn with_quarantined(self, after: ConnectionIoState, token: OperationToken) -> bool {
        &&& after.accepted == self.accepted
        &&& after.completion_work == self.completion_work
        &&& after.quarantined@ == if self.quarantined@.contains(token) {
            self.quarantined@
        } else {
            self.quarantined@.push(token)
        }
    }

    /// Marks an operation as quarantined; true when it was not before.
    pub fn mark_operation_quarantined(&mut self, token: OperationToken) -> (first: bool)
        ensures
            first == !old(self).quarantined@.contains(token),
            old(self).with_quarantined(*final(self), token),
            !first ==> *final(self) == *old(self),
    {
        match Self::position(&self.quarantined, token) {
            Some(_) => false,
            None => {
                self.quarantined.push(token);
                true
            },
        }
    }

    /// Takes an operation out of the quarantined ones; true when it was there.
    pub fn clear_operation_quarantined(&mut self, token: OperationToken) -> (cleared: bool)
        ensures
            cleared == old(self).quarantined@.contains(token),
            final(self).accepted == old(self).accepted,
            final(self).completion_work == old(self).completion_work,
            cleared ==> exists|i: int|
                0 <= i < old(self).quarantined@.len() && old(self).quarantined@[i] == token
                    && final(self).quarantined@ == old(self).quarantined@.remove(i),
            !cleared ==> *final(self) == *old(self),
    {
        match Self::position(&self.quarantined, token) {
            Some(i) => {
                self.quarantined.remove(i);
                assert(old(self).quarantined@[i as int] == token);
                true
            },
            None => false,
        }
    }
}

/// One engine-owned connection.
pub struct ConnectionState {
    pub token: ConnectionToken,
    pub qp_num: u32,
    pub poster: ConnectionPoster,
    pub io_ledger: ConnectionIoState,
    pub local_addr: Option<String>,
    pub peer_addr: Option<String>,
    pub io_closed: bool,
    pub close_scan_slot: usize,
    pub close_scan_complete: bool,
    pub quarantine_scan_slot: usize,
    pub quarantine_scan_complete: bool,
    pub close: SessionCloseState,
    pub close_result: Option<MemoizedTerminalResult>,
    pub inbound_accept_succeeded: bool,
    pub error_transition_started: bool,
    pub error_transition_complete: bool,
    pub qp_destroyed: bool,
    pub qp_reclamation_proof: Option<QpDestructionProof>,
    pub drained_recorded: bool,
    pub admission: Option<ConnectionReservation>,
}

impl ConnectionState {
    /// Whether this is a connection as it starts out.
    pub open spec fn is_fresh(
        self,
        token: ConnectionToken,
        poster: ConnectionPoster,
        local_addr: Option<String>,
        peer_addr: Option<String>,
        admission: Option<ConnectionReservation>,
    ) -> bool {
        &&& self.token == token
        &&& self.qp_num == poster.queue_pair()
        &&& self.poster == poster
        &&& self.io_ledger.accepted@.len() == 0
        &&& self.io_ledger.quarantined@.len() == 0
        &&& !self.io_ledger.completion_work
        &&& self.local_addr == local_addr
        &&& self.peer_addr == peer_addr
        &&& !self.io_closed
        &&& self.close_scan_slot == 0 && !self.close_scan_complete
        &&& self.quarantine_scan_slot == 0 && !self.quarantine_scan_complete
        &&& self.close == (SessionCloseState { outcome: None, engine_terminal: None, retired: false })
        &&& self.close_result is None
        &&& !self.inbound_accept_succeeded
        &&& !self.error_transition_started && !self.error_transition_complete
        &&& !self.qp_destroyed
        &&& self.qp_reclamation_proof is None
        &&& !self.drained_recorded
        &&& match admission {
            Some(reservation) => self.admission == Some(reservation.registered()),
            None => self.admission is None,
        }
    }

    pub fn new(
        token: ConnectionToken,
        poster: ConnectionPoster,
        local_addr: Option<String>,
        peer_addr: Option<String>,
        admission: Option<ConnectionReservation>,
    ) -> (state: Self)
        ensures
            state.is_fresh(token, poster, local_addr, peer_addr, admission),
    {
        let qp_num: u32 = poster.qp_num();
        let admission = match admission {
            Some(reservation) => {
                let mut reservation = reservation;
                reservation.mark_registered();
                Some(reservation)
            },
            None => None,
        };
        ConnectionState {
            token,
            qp_num,
            poster,
            io_ledger: ConnectionIoState::new(),
            local_addr,
            peer_addr,
            io_closed: false,
            close_scan_slot: 0,
            close_scan_complete: false,
            quarantine_scan_slot: 0,
            quarantine_scan_complete: false,
            close: SessionCloseState::new(),
            close_result: None,
            inbound_accept_succeeded: false,
            error_transition_started: false,
            error_transition_complete: false,
            qp_destroyed: false,
            qp_reclamation_proof: None,
            drained_recorded: false,
            admission,
        }
    }

    pub fn identity(&self) -> (identity: RdmaConnectionIdentity)
        ensures
            identity.token() == self.token,
            identity.queue_pair() == self.qp_num,
    {
        RdmaConnectionIdentity {
            slot: self.token.slot,
            generation: self.token.generation,
            qp_num: self.qp_num,
        }
    }

    /// Takes in the provider's answer to an accept; a second accept fails.
    pub fn accept_inbound(&mut self, reply: Result<(), Error>) -> (result: Result<(), Error>)
        ensures
            old(self).inbound_accept_succeeded ==> {
                &&& result matches Err(error) && error.is_invalid_config(
                    "inbound provider accept was requested more than once"@,
                )
                &&& *final(self) == *old(self)
            },
            !old(self).inbound_accept_succeeded ==> {
                &&& result == reply
                &&& *final(self) == (ConnectionState {
                    inbound_accept_succeeded: reply is Ok,
                    ..*old(self)
                })
            },
    {
        if self.inbound_accept_succeeded {
            return Err(Error::invalid("inbound provider accept was requested more than once"));
        }
        if reply.is_ok() {
            self.inbound_accept_succeeded = true;
        }
        reply
    }

    pub fn stop_posting(&mut self)
        ensures
            *final(self) == (ConnectionState { io_closed: true, ..*old(self) }),
    {
        self.io_closed = true;
    }

    pub fn io_is_open(&self) -> (open: bool)
        ensures
            open == !self.io_closed,
    {
        !self.io_closed
    }

    /// The event that a newly attached event port is owed: none unless the I/O
    /// side asks for a replay.
    pub fn install_io_event_sender(&self, replay: bool) -> (event: Option<IoTerminalEvent>)
        ensures
            event is Some <==> replay,
            event matches Some(value) ==> match self.close_error() {
                Error::TransportClosed => value == IoTerminalEvent::Disconnected,
                error => value == IoTerminalEvent::Terminal(error),
            },
    {
        if !replay {
            return None;
        }
        match self.operation_close_error() {
            Error::TransportClosed => Some(IoTerminalEvent::Disconnected),
            error => Some(IoTerminalEvent::Terminal(error)),
        }
    }

    /// The error that closes outstanding operations.
    pub open spec fn close_error(self) -> Error {
        match self.close_result {
            Some(MemoizedTerminalResult::Failed(error)) => error,
            _ => Error::TransportClosed,
        }
    }

    pub fn operation_close_error(&self) -> (error: Error)
        ensures
            error == self.close_error(),
    {
        match &self.close_result {
            Some(MemoizedTerminalResult::Failed(error)) => error.clone(),
            _ => Error::TransportClosed,
        }
    }

    /// The connection after `result` became its close result, unless it had one,
    /// and was published.
    pub open spec fn with_close_result(self, result: MemoizedTerminalResult) -> ConnectionState {
        let kept = match self.close_result {
            Some(earlier) => earlier,
            None => result,
        };
        ConnectionState {
            close_result: Some(kept),
            close: self.close.published(kept),
            ..self
        }
    }

    fn keep_close_result(&mut self, result: MemoizedTerminalResult)
        ensures
            *final(self) == old(self).with_close_result(result),
    {
        if self.close_result.is_none() {
            self.close_result = Some(result);
        }
        self.publish_close_result();
    }

    pub fn publish_close_result(&mut self)
        ensures
            *final(self) == match old(self).close_result {
                Some(result) => ConnectionState {
                    close: old(self).close.published(result),
                    ..*old(self)
                },
                None => *old(self),
            },
    {
        match &self.close_result {
            Some(result) => self.close.publish(result),
            None => {},
        }
    }

    /// Whether ending the connection with the engine needs the provider.
    pub open spec fn error_transition_needed(self) -> bool {
        !self.error_transition_started && self.poster.holds_qp()
    }

    pub fn needs_error_transition(&self) -> (needed: bool)
        ensures
            needed == self.error_transition_needed(),
    {
        !self.error_transition_started && self.poster.has_qp()
    }

    /// The connection after its one move to the error state, which the provider
    /// answered with `reply`.
    pub open spec fn error_transitioned(self, reply: Result<(), Error>) -> ConnectionState {
        if self.error_transition_started {
            self
        } else {
            ConnectionState {
                error_transition_started: true,
                error_transition_complete: self.error_transition_complete || !self.poster.holds_qp()
                    || reply is Ok,
                ..self
            }
        }
    }

    /// Moves the queue pair to its error state once. Without a queue pair there
    /// is nothing to move, and the provider's answer is not looked at.
    pub fn transition_to_error_once(&mut self, reply: Result<(), Error>) -> (result: Result<
        bool,
        Error,
    >)
        ensures
            *final(self) == old(self).error_transitioned(reply),
            result == if old(self).error_transition_started {
                Ok(false)
            } else if !old(self).poster.holds_qp() {
                Ok(true)
            } else {
                match reply {
                    Ok(()) => Ok(true),
                    Err(error) => Err(error),
                }
            },
    {
        if self.error_transition_started {
            return Ok(false);
        }
        self.error_transition_started = true;
        if self.poster.has_qp() {
            if let Err(error) = reply {
                return Err(error);
            }
        }
        self.error_transition_complete = true;
        Ok(true)
    }

    /// The connection after the engine ended with `outcome`.
    pub open spec fn engine_finalized(self, outcome: MemoizedTerminalResult) -> ConnectionState {
        let stopped = ConnectionState { io_closed: true, ..self };
        match outcome {
            MemoizedTerminalResult::Failed(error) => stopped.with_close_result(outcome),
            MemoizedTerminalResult::Success => stopped,
        }
    }

    /// Ends the connection with the engine, moving its queue pair to the error state.
    pub fn finalize_engine(
        &mut self,
        outcome: &MemoizedTerminalResult,
        reply: Result<(), Error>,
    ) -> (event: Option<IoTerminalEvent>)
        ensures
            *final(self) == old(self).error_transitioned(reply).engine_finalized(*outcome),
            event == match *outcome {
                MemoizedTerminalResult::Failed(error) => Some(IoTerminalEvent::Terminal(error)),
                MemoizedTerminalResult::Success => None,
            },
    {
        let _ = self.transition_to_error_once(reply);
        self.finalize_engine_without_provider(outcome)
    }

    /// Ends the connection with the engine, leaving its queue pair alone.
    pub fn finalize_engine_without_provider(
        &mut self,
        outcome: &MemoizedTerminalResult,
    ) -> (event: Option<IoTerminalEvent>)
        ensures
            *final(self) == old(self).engine_finalized(*outcome),
            event == match *outcome {
                MemoizedTerminalResult::Failed(error) => Some(IoTerminalEvent::Terminal(error)),
                MemoizedTerminalResult::Success => None,
            },
    {
        self.io_closed = true;
        match outcome.error() {
            Some(error) => {
                self.keep_close_result(MemoizedTerminalResult::from_error(error.clone()));
                Some(IoTerminalEvent::Terminal(error))
            },
            None => None,
        }
    }

    pub fn mark_disconnected(&mut self) -> (event: IoTerminalEvent)
        ensures
            *final(self) == (ConnectionState { io_closed: true, ..*old(self) }),
            event == IoTerminalEvent::Disconnected,
    {
        self.io_closed = true;
        IoTerminalEvent::Disconnected
    }

    /// The connection after a connection-manager failure.
    pub open spec fn cm_failed(self, error: Error) -> ConnectionState {
        (ConnectionState { io_closed: true, ..self }).with_close_result(
            MemoizedTerminalResult::Failed(error),
        )
    }

    pub fn record_cm_failure(&mut self, error: Error) -> (event: IoTerminalEvent)
        ensures
            *final(self) == old(self).cm_failed(error),
            event == IoTerminalEvent::Terminal(error),
    {
        self.io_closed = true;
        self.keep_close_result(MemoizedTerminalResult::from_error(error.clone()));
        IoTerminalEvent::Terminal(error)
    }

    /// Records a connection-manager failure and wakes the close waiters.
    pub fn mark_cm_failure_into(
        &mut self,
        error: Error,
        actions: &mut ReactorActions,
    ) -> (event: IoTerminalEvent)
        ensures
            *final(self) == old(self).cm_failed(error),
            event == IoTerminalEvent::Terminal(error),
            final(actions)@ == old(actions)@.push(Action::WakeClose { connection: old(self).token }),
    {
        let event = self.record_cm_failure(error);
        actions.push(Action::WakeClose { connection: self.token });
        event
    }

    /// The connection after its queue pair was first seen destroyed.
    pub open spec fn qp_gone(self) -> ConnectionState {
        if self.qp_destroyed {
            self
        } else {
            ConnectionState {
                qp_destroyed: true,
                admission: match self.admission {
                    Some(reservation) => Some(
                        ConnectionReservation { qp_counted: false, ..reservation },
                    ),
                    None => None,
                },
                ..self
            }
        }
    }

    fn record_qp_destroyed(&mut self) -> (first: bool)
        ensures
            first == !old(self).qp_destroyed,
            *final(self) == old(self).qp_gone(),
    {
        let first: bool = !self.qp_destroyed;
        self.qp_destroyed = true;
        if first {
            if let Some(reservation) = &mut self.admission {
                reservation.mark_qp_destroyed();
            }
        }
        first
    }

    /// Whether a destroy of the queue pair needs the provider.
    pub fn needs_qp_destroy(&self) -> (needed: bool)
        ensures
            needed == (!self.qp_destroyed && self.poster.holds_qp()),
    {
        !self.qp_destroyed && self.poster.has_qp()
    }

    /// The connection after a destroy of its queue pair, which the provider
    /// answered with `reply`.
    pub open spec fn after_qp_destroy(self, reply: Result<bool, Error>) -> ConnectionState {
        let stopped = ConnectionState { io_closed: true, ..self };
        if self.qp_destroyed {
            stopped
        } else {
            let taken = ConnectionState {
                poster: if self.poster.holds_qp() {
                    self.poster.after_destroy(reply)
                } else {
                    self.poster
                },
                ..stopped
            };
            if self.poster.destroyed(reply) == Ok::<bool, Error>(true) {
                taken.qp_gone()
            } else {
                taken
            }
        }
    }

    /// Whether a destroy of the queue pair, which the provider answered with `reply`,
    /// is evidence that it is gone.
    pub open spec fn destruction_proven(self, reply: Result<bool, Error>) -> bool {
        !self.qp_destroyed && self.poster.destroyed(reply) == Ok::<bool, Error>(true)
    }

    /// Whether `result` is what a destroy of the queue pair reports, which the provider
    /// answered with `reply`.
    pub open spec fn qp_destroy_answer(
        self,
        reply: Result<bool, Error>,
        result: Result<QpDestroyStatus, Error>,
    ) -> bool {
        if self.qp_destroyed {
            result == Ok::<QpDestroyStatus, Error>(QpDestroyStatus::AlreadyDestroyed)
        } else {
            match self.poster.destroyed(reply) {
                Ok(true) => result == Ok::<QpDestroyStatus, Error>(QpDestroyStatus::DestroyedNow),
                Ok(false) => result matches Err(error) && error.is_invalid_config(
                    "QP ownership disappeared before its destruction boundary was recorded"@,
                ),
                Err(error) => result == Err::<QpDestroyStatus, Error>(error),
            }
        }
    }

    /// Destroys the queue pair if that was not done before.
    pub fn destroy_qp_for_session(&mut self, reply: Result<bool, Error>) -> (result: Result<
        QpDestroyStatus,
        Error,
    >)
        ensures
            *final(self) == old(self).after_qp_destroy(reply),
            old(self).qp_destroy_answer(reply, result),
    {
        self.io_closed = true;
        if self.qp_destroyed {
            return Ok(QpDestroyStatus::AlreadyDestroyed);
        }
        match self.poster.destroy_qp(reply) {
            Ok(true) => {
                let _ = self.record_qp_destroyed();
                Ok(QpDestroyStatus::DestroyedNow)
            },
            Ok(false) => Err(
                Error::invalid(
                    "QP ownership disappeared before its destruction boundary was recorded",
                ),
            ),
            Err(error) => Err(error),
        }
    }

    /// The connection after its resources were given up, the provider answering
    /// the destroy of a queue pair that was still there with `reply`.
    pub open spec fn after_resource_destroy(self, reply: Result<bool, Error>) -> ConnectionState {
        let stopped = ConnectionState { io_closed: true, ..self };
        let report = if self.qp_destroyed {
            Ok(false)
        } else {
            self.poster.destroyed(reply)
        };
        let poster = if !self.qp_destroyed && self.poster.holds_qp() {
            self.poster.after_destroy(reply)
        } else {
            self.poster
        };
        match report {
            Err(_) => ConnectionState { poster, ..stopped },
            Ok(now) => {
                let released = ConnectionState {
                    poster: match poster {
                        ConnectionPoster::Verbs(resources) => ConnectionPoster::Verbs(
                            VerbsConnectionResources { cm_owner: None, ..resources },
                        ),
                        other => other,
                    },
                    ..stopped
                };
                if now {
                    released.qp_gone()
                } else {
                    released
                }
            },
        }
    }

    /// Gives up the connection's resources, handing out its identifier.
    ///
    /// Accepted work prevents it. Without a destroyed queue pair it fails.
    pub fn destroy_connection_resources(
        &mut self,
        outstanding_operations: usize,
        reply: Result<bool, Error>,
    ) -> (result: Result<Option<CmId>, Error>)
        ensures
            outstanding_operations != 0 ==> {
                &&& *final(self) == *old(self)
                &&& result == Err::<Option<CmId>, Error>(
                    Error::EngineWedged {
                        retained_bundles: 1,
                        outstanding_operations,
                        cq_debt: outstanding_operations,
                    },
                )
            },
            outstanding_operations == 0 ==> {
                &&& *final(self) == old(self).after_resource_destroy(reply)
                &&& if old(self).qp_destroyed || old(self).poster.destroyed(reply) == Ok::<
                    bool,
                    Error,
                >(true) {
                    result == Ok::<Option<CmId>, Error>(old(self).poster.cm_owner())
                } else {
                    match old(self).poster.destroyed(reply) {
                        Err(error) => result == Err::<Option<CmId>, Error>(error),
                        Ok(_) => result matches Err(error) && error.is_invalid_config(
                            "connection resources lost QP ownership without a destruction boundary"@,
                        ),
                    }
                }
            },
    {
        if outstanding_operations != 0 {
            return Err(
                Error::EngineWedged {
                    retained_bundles: 1,
                    outstanding_operations,
                    cq_debt: outstanding_operations,
                },
            );
        }
        self.io_closed = true;
        let qp_destroyed: bool = if self.qp_destroyed {
            false
        } else {
            match self.poster.destroy_qp(reply) {
                Ok(destroyed) => destroyed,
                Err(error) => {
                    return Err(error);
                },
            }
        };
        let cm_id = self.poster.take_cm_owner();
        if qp_destroyed {
            let _ = self.record_qp_destroyed();
        }
        if !self.qp_destroyed {
            return Err(
                Error::invalid(
                    "connection resources lost QP ownership without a destruction boundary",
                ),
            );
        }
        Ok(cm_id)
    }

    pub fn update_close_operation_scan(&mut self, next: usize, complete: bool)
        ensures
            *final(self) == (ConnectionState {
                close_scan_slot: next,
                close_scan_complete: complete,
                ..*old(self)
            }),
    {
        self.close_scan_slot = next;
        self.close_scan_complete = complete;
    }

    pub fn update_quarantine_operation_scan(&mut self, next: usize, complete: bool)
        ensures
            *final(self) == (ConnectionState {
                quarantine_scan_slot: next,
                quarantine_scan_complete: complete,
                ..*old(self)
            }),
    {
        self.quarantine_scan_slot = next;
        self.quarantine_scan_complete = complete;
    }

    /// Keeps the connection's one destruction proof for later.
    pub fn store_qp_reclamation_proof(&mut self, evidence: QpDestructionProof)
        requires
            old(self).qp_reclamation_proof is None,
        ensures
            *final(self) == (ConnectionState {
                qp_reclamation_proof: Some(evidence),
                ..*old(self)
            }),
    {
        self.qp_reclamation_proof = Some(evidence);
    }

    pub fn take_qp_reclamation_proof(&mut self) -> (evidence: Option<QpDestructionProof>)
        ensures
            evidence == old(self).qp_reclamation_proof,
            *final(self) == (ConnectionState { qp_reclamation_proof: None, ..*old(self) }),
    {
        self.qp_reclamation_proof.take()
    }

    /// Publishes that accepted work stays quarantined.
    pub fn publish_quarantine_into(
        &mut self,
        outstanding_operations: usize,
        cq_debt: usize,
        actions: &mut ReactorActions,
    ) -> (event: IoTerminalEvent)
        ensures
            *final(self) == old(self).with_close_result(
                MemoizedTerminalResult::Failed(
                    Error::ConnectionQuarantined { outstanding_operations, cq_debt },
                ),
            ),
            event == IoTerminalEvent::Terminal(
                Error::ConnectionQuarantined { outstanding_operations, cq_debt },
            ),
            final(actions)@ == old(actions)@.push(Action::WakeClose { connection: old(self).token }),
    {
        let error = Error::ConnectionQuarantined { outstanding_operations, cq_debt };
        self.keep_close_result(MemoizedTerminalResult::from_error(error.clone()));
        actions.push(Action::WakeClose { connection: self.token });
        IoTerminalEvent::Terminal(error)
    }

    /// Whether a quarantine is already this connection's close result.
    pub open spec fn close_is_quarantined(self) -> bool {
        self.close_result matches Some(result) && result.quarantined()
    }

    /// Whether `after` is this connection once `error` was published as the cause
    /// of retained resources: unless a quarantine was published before.
    pub open spec fn destroy_quarantined(self, after: ConnectionState, error: Error) -> bool {
        if self.close_is_quarantined() {
            after == self
        } else {
            &&& after.close_result matches Some(
                MemoizedTerminalResult::Failed(Error::ConnectionDestroyQuarantined { cause }),
            ) && cause@ == error.text()
            &&& after == (ConnectionState {
                close_result: after.close_result,
                close: self.close.published(after.close_result->0),
                ..self
            })
        }
    }

    /// Publishes that the resources stay because `error` kept them from being
    /// destroyed. It is published once; close waiters are woken in any case.
    pub fn publish_destroy_quarantine_into(
        &mut self,
        error: &Error,
        actions: &mut ReactorActions,
    ) -> (event: Option<IoTerminalEvent>)
        ensures
            event is Some <==> !old(self).close_is_quarantined(),
            event matches Some(value) ==> value == IoTerminalEvent::Terminal(
                final(self).close_error(),
            ),
            old(self).destroy_quarantined(*final(self), *error),
            final(actions)@ == old(actions)@.push(Action::WakeClose { connection: old(self).token }),
    {
        let newly: bool = match &self.close_result {
            Some(result) => !result.is_connection_quarantined(),
            None => true,
        };
        actions.push(Action::WakeClose { connection: self.token });
        if !newly {
            return None;
        }
        let cause: String = error.to_string();
        let published = Error::ConnectionDestroyQuarantined { cause };
        let event = IoTerminalEvent::Terminal(published.clone());
        self.close_result = Some(MemoizedTerminalResult::from_error(published));
        self.publish_close_result();
        Some(event)
    }

    /// Whether the engine's failure leaves this bundle retained.
    pub fn retain_bundle_for_engine_failure(&self, accepted_count: usize) -> (retain: bool)
        ensures
            retain == (accepted_count != 0),
    {
        accepted_count != 0
    }

    /// The connection once retired.
    pub open spec fn retired(self) -> ConnectionState {
        let done = self.with_close_result(MemoizedTerminalResult::Success);
        ConnectionState { close: SessionCloseState { retired: true, ..done.close }, ..done }
    }

    /// Ends the connection: its close waiters may see its outcome from now on.
    pub fn finish_retirement_into(&mut self, actions: &mut ReactorActions) -> (event: IoTerminalEvent)
        ensures
            *final(self) == old(self).retired(),
            event == IoTerminalEvent::Closed,
            final(actions)@ == old(actions)@.push(Action::WakeClose { connection: old(self).token }),
    {
        self.keep_close_result(MemoizedTerminalResult::success());
        self.close.mark_retired();
        actions.push(Action::WakeClose { connection: self.token });
        IoTerminalEvent::Closed
    }

    /// The connection once its close began.
    pub open spec fn closing(self) -> ConnectionState {
        ConnectionState {
            io_closed: true,
            admission: match self.admission {
                Some(reservation) => Some(
                    ConnectionReservation { state: reservation.state.draining(), ..reservation },
                ),
                None => None,
            },
            ..self
        }
    }

    /// What the admission of this connection is counted by.
    pub open spec fn marked(self) -> Option<BundleMark> {
        match self.admission {
            Some(reservation) => Some(reservation.marked()),
            None => None,
        }
    }

    pub fn begin_close(&mut self)
        ensures
            *final(self) == old(self).closing(),
    {
        self.io_closed = true;
        if let Some(reservation) = &mut self.admission {
            reservation.mark_draining();
        }
    }

    pub fn mark_drained_once(&mut self) -> (first: bool)
        ensures
            first == !old(self).drained_recorded,
            *final(self) == (ConnectionState { drained_recorded: true, ..*old(self) }),
    {
        if self.drained_recorded {
            false
        } else {
            self.drained_recorded = true;
            true
        }
    }

    pub fn rollback_draining_count(&mut self)
        ensures
            *final(self) == (ConnectionState {
                admission: match old(self).admission {
                    Some(reservation) => Some(
                        ConnectionReservation {
                            state: reservation.state.rolled_back(),
                            ..reservation
                        },
                    ),
                    None => None,
                },
                ..*old(self)
            }),
    {
        if let Some(reservation) = &mut self.admission {
            reservation.rollback_draining();
        }
    }

    /// The connection with its admission quarantined.
    pub open spec fn reservation_quarantined(self) -> ConnectionState {
        ConnectionState {
            admission: match self.admission {
                Some(reservation) => Some(reservation.quarantined()),
                None => None,
            },
            ..self
        }
    }

    pub fn mark_reservation_quarantined(&mut self)
        ensures
            *final(self) == old(self).reservation_quarantined(),
    {
        if let Some(reservation) = &mut self.admission {
            reservation.mark_quarantined();
        }
    }

    /// The connection with the quarantine of its admission lifted.
    pub open spec fn reservation_recovered(self) -> ConnectionState {
        ConnectionState {
            admission: match self.admission {
                Some(reservation) => Some(reservation.recovered(!self.qp_destroyed)),
                None => None,
            },
            ..self
        }
    }

    pub fn recover_reservation_quarantine(&mut self)
        ensures
            *final(self) == old(self).reservation_recovered(),
    {
        let live: bool = !self.qp_destroyed;
        if let Some(reservation) = &mut self.admission {
            reservation.recover_quarantine(live);
        }
    }
}

/// The queue pair of a connection is destroyed at most once: a second destroy
/// reports that it was done and changes nothing but posting.
pub proof fn qp_is_destroyed_once(
    connection: ConnectionState,
    first: Result<bool, Error>,
    second: Result<bool, Error>,
)
    requires
        connection.after_qp_destroy(first).qp_destroyed,
    ensures
        connection.after_qp_destroy(first).after_qp_destroy(second) == connection.after_qp_destroy(
            first,
        ),
{
}

/// Only a queue pair that is gone gives evidence of it, and only once; its identifier
/// outlives it.
pub proof fn evidence_is_of_a_destroyed_queue_pair(
    connection: ConnectionState,
    reply: Result<bool, Error>,
    again: Result<bool, Error>,
)
    requires
        connection.destruction_proven(reply),
    ensures
        connection.after_qp_destroy(reply).qp_destroyed,
        connection.poster is Verbs ==> !connection.after_qp_destroy(reply).poster.holds_qp(),
        !connection.after_qp_destroy(reply).destruction_proven(again),
        connection.poster matches ConnectionPoster::Verbs(resources) ==> {
            &&& connection.after_qp_destroy(reply).poster is Verbs
            &&& connection.after_qp_destroy(reply).poster->Verbs_0.cm_owner == resources.cm_owner
        },
{
}

} // verus!
