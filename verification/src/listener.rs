//! Listeners: admission, pairing of waiters with children, and their close.

use vstd::prelude::*;
use vstd::string::StringExecFns;

use std::collections::{HashMap, VecDeque};
use std::sync::Arc;
use tokio::sync::{OwnedSemaphorePermit, Semaphore};

use crate::actions::{Action, ReactorActions, REACTOR_ACTION_BUDGET};
use crate::admission::{
    available_permits, close_semaphore, new_semaphore, permit_source, permits_made, try_acquire, MAX_PERMITS,
};
use crate::connection::CmId;
use crate::error::Error;
use crate::requests::{
    accept_cancelled, accept_delivered, is_accept_cancelled, is_accept_delivered, AcceptRequest,
};
use crate::routes::InboundRejectReason;
use crate::slots::{Lookup, SlotRegistry, SlotsView};
use crate::terminal::{MemoizedTerminalResult, SessionListenerCloseState};
use crate::text::append_decimal;
use crate::text::decimal;
use crate::token::{ConnectionToken, ListenerToken, RequestToken, SlotToken};

verus! {

/// The backlog of a listener that asks for none.
pub const DEFAULT_LISTENER_BACKLOG: usize = 128;

/// The largest backlog of a listener.
pub const MAX_LISTENER_BACKLOG: usize = 4096;

/// Configuration for one engine-owned listener.
///
/// The backlog must be in `1..=4096`. It is passed unchanged to the provider, and
/// bounds both admitted accept requests and pending inbound children.
#[derive(Clone, Copy, Debug, PartialEq, Eq, Structural)]
pub struct RdmaListenerConfig {
    backlog: usize,
}

impl Default for RdmaListenerConfig {
    fn default() -> (config: Self)
        ensures
            config.capacity() == DEFAULT_LISTENER_BACKLOG,
    {
        RdmaListenerConfig { backlog: DEFAULT_LISTENER_BACKLOG }
    }
}

impl RdmaListenerConfig {
    pub closed spec fn capacity(self) -> usize {
        self.backlog
    }

    /// Whether the backlog is one that a listener can have.
    pub open spec fn valid(self) -> bool {
        1 <= self.capacity() <= MAX_LISTENER_BACKLOG
    }

    /// The text that a backlog out of range is refused with.
    pub open spec fn refusal(self) -> Seq<char> {
        "listener backlog "@ + decimal(self.capacity() as nat) + " is outside 1..=4096"@
    }

    /// The configuration with this backlog.
    pub closed spec fn with_backlog(self, value: usize) -> RdmaListenerConfig {
        RdmaListenerConfig { backlog: value }
    }

    /// Stores the backlog, whatever it is; it is validated when a listener is made.
    pub fn backlog(self, value: usize) -> (config: Self)
        ensures
            config == self.with_backlog(value),
            config.capacity() == value,
    {
        RdmaListenerConfig { backlog: value }
    }

    /// The backlog bound of the provider and of the engine.
    pub fn backlog_capacity(&self) -> (capacity: usize)
        ensures
            capacity == self.capacity(),
    {
        self.backlog
    }

    pub fn validate(&self) -> (result: Result<(), Error>)
        ensures
            result is Ok <==> self.valid(),
            result matches Err(error) ==> error.is_invalid_config(self.refusal()),
    {
        if 1 <= self.backlog && self.backlog <= MAX_LISTENER_BACKLOG {
            return Ok(());
        }
        let mut text: String = String::new();
        text.append("listener backlog ");
        append_decimal(&mut text, self.backlog as u64);
        text.append(" is outside 1..=4096");
        assert(text@ =~= self.refusal());
        Err(Error::InvalidConfig(text))
    }
}

/// Calls the provider with the backlog of a valid configuration.
pub fn with_validated_listener_backlog<T, F: FnOnce(i32) -> T>(
    config: &RdmaListenerConfig,
    provider_call: F,
) -> (result: Result<T, Error>)
    requires
        config.valid() ==> call_requires(provider_call, (config.capacity() as i32,)),
    ensures
        result is Ok <==> config.valid(),
        match result {
            Ok(reply) => call_ensures(provider_call, (config.capacity() as i32,), reply),
            Err(error) => error.is_invalid_config(config.refusal()),
        },
{
    match config.validate() {
        Ok(()) => {
            let backlog: i32 = config.backlog_capacity() as i32;
            Ok(provider_call(backlog))
        },
        Err(error) => Err(error),
    }
}

/// An inbound child that waits to be paired, by the route that owns it.
#[derive(Clone, Copy, Debug, PartialEq, Eq, Structural)]
pub struct IncomingChild {
    pub token: ConnectionToken,
}

impl IncomingChild {
    pub fn new(token: ConnectionToken) -> (child: Self)
        ensures
            child.token == token,
    {
        IncomingChild { token }
    }

    pub fn into_token(self) -> (token: ConnectionToken)
        ensures
            token == self.token,
    {
        self.token
    }
}

/// The accept waiter and the child that were paired.
#[derive(Clone, Copy, Debug, PartialEq, Eq, Structural)]
pub enum SelectedAccept {
    /// Paired; setup has not begun.
    Ready { request: RequestToken, child: IncomingChild },
    /// Setup has begun; the child has no route yet.
    Processing { request: RequestToken },
    /// The child's route is known.
    Routed { request: RequestToken, route: u64, cancel_started: bool },
}

impl SelectedAccept {
    pub open spec fn waiter(self) -> RequestToken {
        match self {
            SelectedAccept::Ready { request, .. } => request,
            SelectedAccept::Processing { request } => request,
            SelectedAccept::Routed { request, .. } => request,
        }
    }

    pub fn request(&self) -> (request: RequestToken)
        ensures
            request == self.waiter(),
    {
        match self {
            SelectedAccept::Ready { request, .. }
            | SelectedAccept::Processing { request }
            | SelectedAccept::Routed { request, .. } => *request,
        }
    }
}

/// What a listener asks its owner to do next.
#[derive(Debug)]
pub enum ListenerAction {
    /// Complete a waiter that was cancelled while it waited.
    CancelledBeforeSelection(RequestToken),
    /// Fail a waiter of a closing listener.
    FailUnselected(RequestToken),
    /// Turn a waiting child away.
    RejectChild(IncomingChild, InboundRejectReason),
    /// Set the selected pair up.
    ProcessSelected { request: RequestToken, child: IncomingChild },
    /// Turn the selected child away and fail its waiter.
    RejectSelected { request: RequestToken, child: IncomingChild, reason: Error },
    /// Close the selected connection.
    CancelAfterAccept { request: RequestToken, route: u64 },
    /// Release the selected pair whose connection was delivered.
    AcknowledgeDelivery { request: RequestToken, route: u64 },
    /// Destroy the listener's identifier.
    FinalizeClose,
    /// Nothing to do.
    Idle,
}

/// A listener's admission of accept waiters.
pub struct ListenerAdmission {
    pub token: ListenerToken,
    pub permits: Arc<Semaphore>,
    pub open: bool,
    pub close_reason: Option<Error>,
}

impl ListenerAdmission {
    pub fn new(token: ListenerToken, backlog: usize) -> (admission: Self)
        requires
            backlog <= MAX_PERMITS,
        ensures
            admission.token == token,
            permits_made(*admission.permits) == backlog,
            admission.open,
            admission.close_reason is None,
    {
        ListenerAdmission { token, permits: new_semaphore(backlog), open: true, close_reason: None }
    }

    /// Asks for an accept permit; the waiters that hold permits decide whether
    /// there is one.
    pub fn try_acquire(&self) -> (permit: Option<OwnedSemaphorePermit>)
        ensures
            permit matches Some(held) ==> permit_source(held) == *self.permits,
    {
        try_acquire(&self.permits)
    }

    /// How many accept permits are free at the moment.
    pub fn available_permits(&self) -> (free: usize) {
        available_permits(&self.permits)
    }

    pub fn is_open(&self) -> (open: bool)
        ensures
            open == self.open,
    {
        self.open
    }

    pub fn close(&mut self)
        ensures
            *final(self) == (ListenerAdmission { open: false, ..*old(self) }),
    {
        if self.open {
            self.open = false;
            close_semaphore(&self.permits);
        }
    }

    /// The admission once closed for `error`: the first reason stays.
    pub open spec fn closed_with(self, error: Error) -> ListenerAdmission {
        ListenerAdmission {
            open: false,
            close_reason: match self.close_reason {
                Some(reason) => Some(reason),
                None => Some(error),
            },
            ..self
        }
    }

    pub fn close_with_error(&mut self, error: Error)
        ensures
            *final(self) == old(self).closed_with(error),
    {
        if self.close_reason.is_none() {
            self.close_reason = Some(error);
        }
        self.close();
    }

    /// The error that a late accept gets: the reason of the close, else the
    /// listener's own failure, else that the transport is closed.
    pub open spec fn refusal(self, close: SessionListenerCloseState) -> Error {
        match self.close_reason {
            Some(reason) => reason,
            None => match close.outcome {
                Some(MemoizedTerminalResult::Failed(error)) => error,
                _ => Error::TransportClosed,
            },
        }
    }

    pub fn close_error(&self, close: &SessionListenerCloseState) -> (error: Error)
        ensures
            error == self.refusal(*close),
    {
        match &self.close_reason {
            Some(reason) => reason.clone(),
            None => match &close.outcome {
                Some(MemoizedTerminalResult::Failed(error)) => error.clone(),
                _ => Error::TransportClosed,
            },
        }
    }
}

/// A listener, as contracts speak of it.
#[verifier::ext_equal]
pub struct ListenerView {
    pub token: ListenerToken,
    pub requested_addr: String,
    pub local_addr: Option<String>,
    pub backlog: usize,
    pub cm_id: Option<CmId>,
    pub cm_destruction_pending: bool,
    pub raw_id: u64,
    pub context_key: u64,
    pub waiters: Seq<RequestToken>,
    pub children: Seq<IncomingChild>,
    pub selected: Option<SelectedAccept>,
    pub child_slots_used: usize,
    pub closing: bool,
    pub finalization_started: bool,
    pub failure: Option<Error>,
    pub close: SessionListenerCloseState,
    pub admission: ListenerAdmission,
    pub work_enqueued: bool,
}

impl ListenerView {
    pub open spec fn is_closing(self) -> bool {
        self.closing || !self.admission.open
    }

    /// The error that a closing listener fails its waiters with.
    pub open spec fn close_error(self) -> Error {
        match self.failure {
            Some(error) => error,
            None => Error::TransportClosed,
        }
    }

    /// Children that wait or are selected hold a slot each, and the slots are
    /// bounded by the backlog.
    pub open spec fn bounded(self) -> bool {
        &&& self.children.len() + if self.selected is Some {
            1int
        } else {
            0
        } <= self.child_slots_used
        &&& self.child_slots_used <= self.backlog
    }

    /// The accept permits of the listener are as many as its backlog.
    pub open spec fn admits_backlog(self) -> bool {
        permits_made(*self.admission.permits) == self.backlog
    }

    /// The listener after the oldest waiter was paired with the oldest child. No
    /// pair forms while one is selected, nor past a cancelled oldest waiter.
    pub open spec fn paired(self, requests: Map<SlotToken, AcceptRequest>) -> ListenerView {
        if self.selected is None && self.waiters.len() > 0 && self.children.len() > 0
            && !accept_cancelled(requests, self.waiters[0]) {
            ListenerView {
                selected: Some(
                    SelectedAccept::Ready { request: self.waiters[0], child: self.children[0] },
                ),
                waiters: self.waiters.drop_first(),
                children: self.children.drop_first(),
                ..self
            }
        } else {
            self
        }
    }

    /// What the listener does next, and what it is afterwards.
    pub open spec fn next(self, requests: Map<SlotToken, AcceptRequest>) -> (
        ListenerView,
        ListenerAction,
    ) {
        match self.selected {
            // A delivered connection belongs to its user, whatever closes meanwhile.
            Some(SelectedAccept::Routed { request, route, .. }) if accept_delivered(
                requests,
                request,
            ) => (self, ListenerAction::AcknowledgeDelivery { request, route }),
            Some(SelectedAccept::Routed { request, route, cancel_started }) if self.is_closing()
                || accept_cancelled(requests, request) => if cancel_started {
                (self, ListenerAction::Idle)
            } else {
                (
                    ListenerView {
                        selected: Some(
                            SelectedAccept::Routed { request, route, cancel_started: true },
                        ),
                        ..self
                    },
                    ListenerAction::CancelAfterAccept { request, route },
                )
            },
            _ => if self.waiters.len() > 0 && accept_cancelled(requests, self.waiters[0]) {
                (
                    ListenerView { waiters: self.waiters.drop_first(), ..self },
                    ListenerAction::CancelledBeforeSelection(self.waiters[0]),
                )
            } else if self.is_closing() {
                self.next_closing()
            } else {
                self.paired(requests).next_open()
            },
        }
    }

    /// The next step of a closing listener: it fails its waiters, turns its
    /// children away, undoes the selected pair, and then finalizes once.
    pub open spec fn next_closing(self) -> (ListenerView, ListenerAction) {
        if self.waiters.len() > 0 {
            (
                ListenerView { waiters: self.waiters.drop_first(), ..self },
                ListenerAction::FailUnselected(self.waiters[0]),
            )
        } else if self.children.len() > 0 {
            (
                ListenerView { children: self.children.drop_first(), ..self },
                ListenerAction::RejectChild(
                    self.children[0],
                    InboundRejectReason::ListenerClosed,
                ),
            )
        } else {
            match self.selected {
                Some(SelectedAccept::Ready { request, child }) => (
                    ListenerView {
                        selected: Some(SelectedAccept::Processing { request }),
                        ..self
                    },
                    ListenerAction::RejectSelected { request, child, reason: self.close_error() },
                ),
                None if !self.finalization_started => (
                    ListenerView { finalization_started: true, ..self },
                    ListenerAction::FinalizeClose,
                ),
                _ => (self, ListenerAction::Idle),
            }
        }
    }

    /// The next step of an open listener: it begins the setup of a new pair.
    pub open spec fn next_open(self) -> (ListenerView, ListenerAction) {
        match self.selected {
            Some(SelectedAccept::Ready { request, child }) => (
                ListenerView { selected: Some(SelectedAccept::Processing { request }), ..self },
                ListenerAction::ProcessSelected { request, child },
            ),
            _ => (self, ListenerAction::Idle),
        }
    }

    /// The listener after its selected pair ended.
    pub open spec fn unselected(self, requests: Map<SlotToken, AcceptRequest>) -> ListenerView {
        (ListenerView {
            selected: None,
            child_slots_used: if self.child_slots_used > 0 {
                (self.child_slots_used - 1) as usize
            } else {
                0
            },
            ..self
        }).paired(requests)
    }

    /// Whether the listener has something to do.
    pub open spec fn has_work(self, requests: Map<SlotToken, AcceptRequest>) -> bool {
        if self.is_closing() {
            ||| self.waiters.len() > 0
            ||| self.children.len() > 0
            ||| self.selected matches Some(SelectedAccept::Ready { .. })
            ||| self.selected matches Some(SelectedAccept::Routed { cancel_started: false, .. })
            ||| self.selected is None && !self.finalization_started
        } else {
            ||| self.waiters.len() > 0 && accept_cancelled(requests, self.waiters[0])
            ||| self.selected matches Some(SelectedAccept::Ready { .. })
            ||| self.selected matches Some(
                SelectedAccept::Routed { request, cancel_started: false, .. },
            ) && (accept_cancelled(requests, request) || accept_delivered(requests, request))
            ||| self.selected is None && self.waiters.len() > 0 && self.children.len() > 0
        }
    }
}

/// One engine-owned listener.
pub struct ListenerEntry {
    pub token: ListenerToken,
    pub requested_addr: String,
    pub local_addr: Option<String>,
    pub backlog: usize,
    pub cm_id: Option<CmId>,
    pub cm_destruction_pending: bool,
    pub raw_id: u64,
    pub context_key: u64,
    pub waiters: VecDeque<RequestToken>,
    pub children: VecDeque<IncomingChild>,
    pub selected: Option<SelectedAccept>,
    pub child_slots_used: usize,
    pub closing: bool,
    pub finalization_started: bool,
    pub failure: Option<Error>,
    pub close: SessionListenerCloseState,
    pub admission: ListenerAdmission,
    pub work_enqueued: bool,
}

impl ListenerEntry {
    pub open spec fn view(&self) -> ListenerView {
        ListenerView {
            token: self.token,
            requested_addr: self.requested_addr,
            local_addr: self.local_addr,
            backlog: self.backlog,
            cm_id: self.cm_id,
            cm_destruction_pending: self.cm_destruction_pending,
            raw_id: self.raw_id,
            context_key: self.context_key,
            waiters: self.waiters@,
            children: self.children@,
            selected: self.selected,
            child_slots_used: self.child_slots_used,
            closing: self.closing,
            finalization_started: self.finalization_started,
            failure: self.failure,
            close: self.close,
            admission: self.admission,
            work_enqueued: self.work_enqueued,
        }
    }

    /// A listener before its identifier exists.
    pub fn creating(token: ListenerToken, address: String, config: RdmaListenerConfig) -> (entry:
        Self)
        requires
            config.capacity() <= MAX_PERMITS,
        ensures
            entry.token == token,
            entry.requested_addr == address,
            entry.local_addr is None,
            entry.backlog == config.capacity(),
            entry.cm_id is None,
            !entry.cm_destruction_pending,
            entry.raw_id == 0 && entry.context_key == 0,
            entry.waiters@.len() == 0 && entry.children@.len() == 0 && entry.selected is None,
            entry.child_slots_used == 0,
            !entry.closing && !entry.finalization_started && entry.failure is None,
            entry.close == (SessionListenerCloseState { outcome: None, frontend_count: 1 }),
            entry.admission.open && entry.admission.close_reason is None,
            entry.admission.token == token,
            entry@.admits_backlog(),
            !entry.work_enqueued,
            entry@.bounded(),
    {
        let backlog: usize = config.backlog_capacity();
        ListenerEntry {
            token,
            requested_addr: address,
            local_addr: None,
            backlog,
            cm_id: None,
            cm_destruction_pending: false,
            raw_id: 0,
            context_key: 0,
            waiters: VecDeque::new(),
            children: VecDeque::new(),
            selected: None,
            child_slots_used: 0,
            closing: false,
            finalization_started: false,
            failure: None,
            close: SessionListenerCloseState::new(),
            admission: ListenerAdmission::new(token, backlog),
            work_enqueued: false,
        }
    }

    /// The address that messages name the listener by.
    pub open spec fn shown_addr(self) -> String {
        match self.local_addr {
            Some(address) => address,
            None => self.requested_addr,
        }
    }

    pub fn display_addr(&self) -> (address: String)
        ensures
            address == self.shown_addr(),
    {
        match &self.local_addr {
            Some(address) => address.clone(),
            None => self.requested_addr.clone(),
        }
    }

    pub fn is_closing(&self) -> (closing: bool)
        ensures
            closing == self@.is_closing(),
    {
        self.closing || !self.admission.is_open()
    }

    pub fn close_error(&self) -> (error: Error)
        ensures
            error == self@.close_error(),
    {
        match &self.failure {
            Some(error) => error.clone(),
            None => Error::TransportClosed,
        }
    }

    fn select_pair(&mut self, requests: &SlotRegistry<AcceptRequest>)
        requires
            requests.wf(),
        ensures
            final(self)@ == old(self)@.paired(requests@.entries),
    {
        if self.selected.is_some() || self.waiters.len() == 0 || self.children.len() == 0 {
            return;
        }
        if is_accept_cancelled(requests, self.waiters[0]) {
            return;
        }
        if let Some(request) = self.waiters.pop_front() {
            if let Some(child) = self.children.pop_front() {
                self.selected = Some(SelectedAccept::Ready { request, child });
                assert(self.waiters@ =~= old(self).waiters@.drop_first());
                assert(self.children@ =~= old(self).children@.drop_first());
            }
        }
    }

    /// Adds an accept waiter, unless the listener is closing.
    pub fn register_waiter(
        &mut self,
        request: RequestToken,
        requests: &SlotRegistry<AcceptRequest>,
    ) -> (result: Result<(), Error>)
        requires
            requests.wf(),
        ensures
            if old(self)@.is_closing() {
                &&& result == Err::<(), Error>(old(self)@.close_error())
                &&& final(self)@ == old(self)@
            } else {
                &&& result is Ok
                &&& final(self)@ == (ListenerView {
                    waiters: old(self)@.waiters.push(request),
                    ..old(self)@
                }).paired(requests@.entries)
            },
            old(self)@.bounded() ==> final(self)@.bounded(),
    {
        if self.is_closing() {
            return Err(self.close_error());
        }
        self.waiters.push_back(request);
        self.select_pair(requests);
        Ok(())
    }

    /// Takes a child in, unless the listener is closing or its backlog is full.
    pub fn admit_child(
        &mut self,
        child: IncomingChild,
        requests: &SlotRegistry<AcceptRequest>,
    ) -> (rejected: Option<(IncomingChild, InboundRejectReason)>)
        requires
            requests.wf(),
        ensures
            if old(self)@.is_closing() {
                &&& rejected == Some((child, InboundRejectReason::ListenerClosed))
                &&& final(self)@ == old(self)@
            } else if old(self)@.child_slots_used >= old(self)@.backlog {
                &&& rejected == Some((child, InboundRejectReason::BacklogFull))
                &&& final(self)@ == old(self)@
            } else {
                &&& rejected is None
                &&& final(self)@ == (ListenerView {
                    child_slots_used: (old(self)@.child_slots_used + 1) as usize,
                    children: old(self)@.children.push(child),
                    ..old(self)@
                }).paired(requests@.entries)
            },
            old(self)@.bounded() ==> final(self)@.bounded(),
    {
        if self.is_closing() {
            return Some((child, InboundRejectReason::ListenerClosed));
        }
        if self.child_slots_used >= self.backlog {
            return Some((child, InboundRejectReason::BacklogFull));
        }
        self.child_slots_used = self.child_slots_used + 1;
        self.children.push_back(child);
        self.select_pair(requests);
        None
    }

    /// The next thing to do for this listener. A waiter that leaves the queue
    /// gives its permit back.
    pub fn next_action(&mut self, requests: &mut SlotRegistry<AcceptRequest>) -> (action:
        ListenerAction)
        requires
            old(requests).wf(),
        ensures
            final(requests).wf(),
            (final(self)@, action) == old(self)@.next(old(requests)@.entries),
            final(requests)@ == match action {
                ListenerAction::CancelledBeforeSelection(request)
                | ListenerAction::FailUnselected(request) => without_permit(
                    old(requests)@,
                    request,
                ),
                _ => old(requests)@,
            },
            final(requests).spent() == old(requests).spent(),
            old(self)@.bounded() ==> final(self)@.bounded(),
    {
        if let Some(SelectedAccept::Routed { request, route, cancel_started }) = self.selected {
            if is_accept_delivered(requests, request) {
                return ListenerAction::AcknowledgeDelivery { request, route };
            }
            if self.is_closing() || is_accept_cancelled(requests, request) {
                if cancel_started {
                    return ListenerAction::Idle;
                }
                self.selected = Some(SelectedAccept::Routed { request, route, cancel_started: true });
                return ListenerAction::CancelAfterAccept { request, route };
            }
        }
        if self.waiters.len() > 0 && is_accept_cancelled(requests, self.waiters[0]) {
            if let Some(request) = self.waiters.pop_front() {
                assert(self.waiters@ =~= old(self).waiters@.drop_first());
                release_accept_permit(requests, request);
                return ListenerAction::CancelledBeforeSelection(request);
            }
        }
        if self.is_closing() {
            if let Some(request) = self.waiters.pop_front() {
                assert(self.waiters@ =~= old(self).waiters@.drop_first());
                release_accept_permit(requests, request);
                return ListenerAction::FailUnselected(request);
            }
            if let Some(child) = self.children.pop_front() {
                assert(self.children@ =~= old(self).children@.drop_first());
                return ListenerAction::RejectChild(child, InboundRejectReason::ListenerClosed);
            }
            return match self.selected {
                Some(SelectedAccept::Ready { request, child }) => {
                    self.selected = Some(SelectedAccept::Processing { request });
                    ListenerAction::RejectSelected { request, child, reason: self.close_error() }
                },
                None => if self.finalization_started {
                    ListenerAction::Idle
                } else {
                    self.finalization_started = true;
                    ListenerAction::FinalizeClose
                },
                _ => ListenerAction::Idle,
            };
        }
        self.select_pair(requests);
        match self.selected {
            Some(SelectedAccept::Ready { request, child }) => {
                self.selected = Some(SelectedAccept::Processing { request });
                ListenerAction::ProcessSelected { request, child }
            },
            _ => ListenerAction::Idle,
        }
    }

    /// Records the route of the selected pair.
    pub fn route_selected(&mut self, request: RequestToken, route: u64) -> (result: Result<
        (),
        Error,
    >)
        ensures
            match old(self).selected {
                Some(SelectedAccept::Processing { request: current }) if current == request => {
                    &&& result is Ok
                    &&& final(self)@ == (ListenerView {
                        selected: Some(
                            SelectedAccept::Routed { request, route, cancel_started: false },
                        ),
                        ..old(self)@
                    })
                },
                Some(_) => {
                    &&& result matches Err(error) && error.is_invalid_config(
                        "listener selected pair changed during setup"@,
                    )
                    &&& final(self)@ == old(self)@
                },
                None => {
                    &&& result matches Err(error) && error.is_invalid_config(
                        "listener lost its selected pair during setup"@,
                    )
                    &&& final(self)@ == old(self)@
                },
            },
            old(self)@.bounded() ==> final(self)@.bounded(),
    {
        let processing: bool = match self.selected {
            Some(SelectedAccept::Processing { request: current }) => current == request,
            Some(_) => false,
            None => {
                return Err(Error::invalid("listener lost its selected pair during setup"));
            },
        };
        if !processing {
            return Err(Error::invalid("listener selected pair changed during setup"));
        }
        self.selected = Some(SelectedAccept::Routed { request, route, cancel_started: false });
        Ok(())
    }

    fn end_selection(
        &mut self,
        request: RequestToken,
        requests: &mut SlotRegistry<AcceptRequest>,
    )
        requires
            old(requests).wf(),
        ensures
            final(requests).wf(),
            final(requests)@ == without_permit(old(requests)@, request),
            final(requests).spent() == old(requests).spent(),
            final(self)@ == old(self)@.unselected(old(requests)@.entries),
    {
        self.selected = None;
        release_accept_permit(requests, request);
        self.release_child_slot();
        self.select_pair(requests);
    }

    /// Ends the selected pair, if it is that of `request`.
    pub fn finish_selected_request(
        &mut self,
        request: RequestToken,
        requests: &mut SlotRegistry<AcceptRequest>,
    ) -> (finished: bool)
        requires
            old(requests).wf(),
        ensures
            final(requests).wf(),
            finished == (old(self).selected matches Some(selected) && selected.waiter() == request),
            final(self)@ == if finished {
                old(self)@.unselected(old(requests)@.entries)
            } else {
                old(self)@
            },
            final(requests)@ == if finished {
                without_permit(old(requests)@, request)
            } else {
                old(requests)@
            },
            final(requests).spent() == old(requests).spent(),
            old(self)@.bounded() ==> final(self)@.bounded(),
    {
        match self.selected {
            Some(selected) => {
                if selected.request() != request {
                    return false;
                }
                self.end_selection(request, requests);
                true
            },
            None => false,
        }
    }

    /// Whether the selected pair of a listener is on `route`.
    pub open spec fn selects_route(view: ListenerView, route: u64) -> bool {
        view.selected matches Some(SelectedAccept::Routed { route: current, .. }) && current
            == route
    }

    pub fn has_selected_route(&self, route: u64) -> (selected: bool)
        ensures
            selected == Self::selects_route(self@, route),
    {
        match self.selected {
            Some(SelectedAccept::Routed { route: current, .. }) => current == route,
            _ => false,
        }
    }

    /// Ends the selected pair, if its route is `route`.
    pub fn finish_selected_route(
        &mut self,
        route: u64,
        requests: &mut SlotRegistry<AcceptRequest>,
    ) -> (finished: bool)
        requires
            old(requests).wf(),
        ensures
            final(requests).wf(),
            finished == (old(self).selected matches Some(
                SelectedAccept::Routed { route: current, .. },
            ) && current == route),
            final(self)@ == if finished {
                old(self)@.unselected(old(requests)@.entries)
            } else {
                old(self)@
            },
            final(requests)@ == if finished {
                without_permit(old(requests)@, old(self).selected->0.waiter())
            } else {
                old(requests)@
            },
            final(requests).spent() == old(requests).spent(),
            old(self)@.bounded() ==> final(self)@.bounded(),
    {
        match self.selected {
            Some(SelectedAccept::Routed { request, route: current, .. }) => {
                if current != route {
                    return false;
                }
                self.end_selection(request, requests);
                true
            },
            _ => false,
        }
    }

    /// Marks the close of the selected route as begun; true when it was not before.
    pub fn mark_selected_route_closing(&mut self, route: u64) -> (first: bool)
        ensures
            first == (old(self).selected matches Some(
                SelectedAccept::Routed { route: current, cancel_started: false, .. },
            ) && current == route),
            final(self)@ == if first {
                ListenerView {
                    selected: Some(
                        SelectedAccept::Routed {
                            request: old(self).selected->0.waiter(),
                            route,
                            cancel_started: true,
                        },
                    ),
                    ..old(self)@
                }
            } else {
                old(self)@
            },
            old(self)@.bounded() ==> final(self)@.bounded(),
    {
        match self.selected {
            Some(SelectedAccept::Routed { request, route: current, cancel_started }) => {
                if current != route || cancel_started {
                    return false;
                }
                self.selected = Some(
                    SelectedAccept::Routed { request, route, cancel_started: true },
                );
                true
            },
            _ => false,
        }
    }

    /// The listener with the slot of one child given back.
    pub open spec fn slot_released(view: ListenerView) -> ListenerView {
        ListenerView {
            child_slots_used: if view.child_slots_used > 0 {
                (view.child_slots_used - 1) as usize
            } else {
                0
            },
            ..view
        }
    }

    fn release_child_slot(&mut self)
        ensures
            final(self)@ == Self::slot_released(old(self)@),
    {
        self.child_slots_used = self.child_slots_used.saturating_sub(1);
    }

    /// Gives back the slot of a child that was turned away unpaired.
    pub fn release_unpaired_child_slot(&mut self)
        ensures
            final(self)@ == Self::slot_released(old(self)@),
    {
        self.release_child_slot();
    }

    /// The listener once its close was requested.
    pub open spec fn close_requested(view: ListenerView) -> ListenerView {
        if view.closing {
            view
        } else {
            ListenerView {
                closing: true,
                admission: ListenerAdmission { open: false, ..view.admission },
                ..view
            }
        }
    }

    /// Begins the close; true when it had not begun.
    pub fn request_close(&mut self) -> (first: bool)
        ensures
            first == !old(self).closing,
            final(self)@ == Self::close_requested(old(self)@),
    {
        if self.closing {
            return false;
        }
        self.closing = true;
        self.admission.close();
        true
    }

    pub fn close_accept_admission(&mut self, error: Error)
        ensures
            final(self)@ == (ListenerView {
                admission: old(self).admission.closed_with(error),
                ..old(self)@
            }),
    {
        self.admission.close_with_error(error);
    }

    /// The listener once it failed with `error`: the first failure stays.
    pub open spec fn failed(view: ListenerView, error: Error) -> ListenerView {
        Self::close_requested(
            ListenerView {
                failure: match view.failure {
                    Some(earlier) => Some(earlier),
                    None => Some(error),
                },
                admission: view.admission.closed_with(error),
                ..view
            },
        )
    }

    /// Fails the listener; true when its close had not begun.
    pub fn fail(&mut self, error: Error) -> (first: bool)
        ensures
            first == !old(self).closing,
            final(self)@ == Self::failed(old(self)@, error),
    {
        if self.failure.is_none() {
            self.failure = Some(error.clone());
        }
        self.admission.close_with_error(error);
        self.request_close()
    }

    pub fn begin_work(&mut self)
        ensures
            final(self)@ == (ListenerView { work_enqueued: false, ..old(self)@ }),
    {
        self.work_enqueued = false;
    }

    /// Claims the one place of this listener among the queued work.
    pub fn try_enqueue_work(&mut self) -> (claimed: bool)
        ensures
            claimed == !old(self).work_enqueued,
            final(self)@ == (ListenerView { work_enqueued: true, ..old(self)@ }),
    {
        if self.work_enqueued {
            false
        } else {
            self.work_enqueued = true;
            true
        }
    }

    pub fn has_work(&self, requests: &SlotRegistry<AcceptRequest>) -> (work: bool)
        requires
            requests.wf(),
        ensures
            work == self@.has_work(requests@.entries),
    {
        if self.is_closing() {
            if self.waiters.len() > 0 || self.children.len() > 0 {
                return true;
            }
            return match self.selected {
                Some(SelectedAccept::Ready { .. }) => true,
                Some(SelectedAccept::Routed { cancel_started, .. }) => !cancel_started,
                Some(SelectedAccept::Processing { .. }) => false,
                None => !self.finalization_started,
            };
        }
        if self.waiters.len() > 0 && is_accept_cancelled(requests, self.waiters[0]) {
            return true;
        }
        match self.selected {
            Some(SelectedAccept::Ready { .. }) => true,
            Some(SelectedAccept::Routed { request, cancel_started, .. }) => !cancel_started && (
            is_accept_cancelled(requests, request) || is_accept_delivered(requests, request)),
            Some(SelectedAccept::Processing { .. }) => false,
            None => self.waiters.len() > 0 && self.children.len() > 0,
        }
    }

    pub fn take_cm_id(&mut self) -> (cm_id: Option<CmId>)
        ensures
            cm_id == old(self).cm_id,
            final(self)@ == (ListenerView { cm_id: None, ..old(self)@ }),
    {
        self.cm_id.take()
    }

    pub fn mark_cm_destruction_pending(&mut self)
        ensures
            final(self)@ == (ListenerView { cm_destruction_pending: true, ..old(self)@ }),
    {
        self.cm_destruction_pending = true;
    }

    /// The listener with its admission closed.
    pub open spec fn admission_closed(view: ListenerView) -> ListenerView {
        ListenerView { admission: ListenerAdmission { open: false, ..view.admission }, ..view }
    }

    /// The listener once its close was finished: with `error`, else with its
    /// failure, else successfully. The first outcome stays.
    pub open spec fn close_finished(view: ListenerView, error: Option<Error>) -> ListenerView {
        ListenerView {
            close: SessionListenerCloseState {
                outcome: match view.close.outcome {
                    Some(earlier) => Some(earlier),
                    None => Some(
                        match (error, view.failure) {
                            (Some(cause), _) => MemoizedTerminalResult::Failed(cause),
                            (None, Some(cause)) => MemoizedTerminalResult::Failed(cause),
                            (None, None) => MemoizedTerminalResult::Success,
                        },
                    ),
                },
                ..view.close
            },
            ..view
        }
    }

    /// Publishes the outcome of the close and wakes the close waiters.
    pub fn finish_close_into(&mut self, error: Option<Error>, actions: &mut ReactorActions)
        ensures
            final(self)@ == Self::close_finished(old(self)@, error),
            final(actions)@ == old(actions)@.push(
                Action::WakeListener { listener: old(self).token },
            ),
    {
        let outcome = match error {
            Some(cause) => MemoizedTerminalResult::from_error(cause),
            None => match &self.failure {
                Some(cause) => MemoizedTerminalResult::from_error(cause.clone()),
                None => MemoizedTerminalResult::success(),
            },
        };
        let _ = self.close.store_if_empty(outcome);
        actions.push(Action::WakeListener { listener: self.token });
    }

    pub fn has_waiters(&self) -> (waiting: bool)
        ensures
            waiting == (self.waiters@.len() > 0),
    {
        self.waiters.len() > 0
    }

    pub fn child_slots_used(&self) -> (used: usize)
        ensures
            used == self.child_slots_used,
    {
        self.child_slots_used
    }

    pub fn selected_is_some(&self) -> (selected: bool)
        ensures
            selected == self.selected is Some,
    {
        self.selected.is_some()
    }
}

/// The table with the permit of one request given back.
pub open spec fn without_permit(
    requests: SlotsView<AcceptRequest>,
    request: RequestToken,
) -> SlotsView<AcceptRequest> {
    if requests.entries.contains_key(request) {
        requests.set(request, AcceptRequest { permit: None, ..requests.entries[request] })
    } else {
        requests
    }
}

/// Gives back the permit of a request, if it still has one.
pub fn release_accept_permit(requests: &mut SlotRegistry<AcceptRequest>, request: RequestToken) -> (released:
    bool)
    requires
        old(requests).wf(),
    ensures
        final(requests).wf(),
        final(requests)@ == without_permit(old(requests)@, request),
        final(requests).spent() == old(requests).spent(),
        released == (old(requests)@.entries.contains_key(request) && old(
            requests,
        )@.entries[request].permit is Some),
{
    match requests.get_mut(request) {
        Some(value) => value.release_permit(),
        None => false,
    }
}

/// The table after `result` came in for one request.
pub open spec fn accept_completed(
    requests: SlotsView<AcceptRequest>,
    request: RequestToken,
    result: Result<ConnectionToken, Error>,
) -> SlotsView<AcceptRequest> {
    if requests.entries.contains_key(request) {
        requests.set(request, requests.entries[request].completed(result))
    } else {
        requests
    }
}

/// The publications after a result came in for one request: its waiter is woken
/// for the first result.
pub open spec fn accept_woken(
    requests: SlotsView<AcceptRequest>,
    request: RequestToken,
    actions: Seq<Action>,
) -> Seq<Action> {
    if requests.entries.contains_key(request) && requests.entries[request].result is Pending {
        actions.push(Action::WakeAccept { request: requests.entries[request].token })
    } else {
        actions
    }
}

/// Completes a request, if the table still holds it.
pub fn complete_accept(
    requests: &mut SlotRegistry<AcceptRequest>,
    request: RequestToken,
    result: Result<ConnectionToken, Error>,
    actions: &mut ReactorActions,
)
    requires
        old(requests).wf(),
    ensures
        final(requests).wf(),
        final(requests)@ == accept_completed(old(requests)@, request, result),
        final(requests).spent() == old(requests).spent(),
        final(actions)@ == accept_woken(old(requests)@, request, old(actions)@),
{
    if let Some(value) = requests.get_mut(request) {
        value.complete_into(result, actions);
    }
}

/// The table after the success of one request was withdrawn for `error`.
pub open spec fn accept_failed(
    requests: SlotsView<AcceptRequest>,
    request: RequestToken,
    error: Error,
) -> SlotsView<AcceptRequest> {
    if requests.entries.contains_key(request) {
        requests.set(request, requests.entries[request].failed(error))
    } else {
        requests
    }
}

/// The publications after one request was claimed: its waiter is woken.
pub open spec fn accept_claimed(
    requests: SlotsView<AcceptRequest>,
    request: RequestToken,
    actions: Seq<Action>,
) -> Seq<Action> {
    if requests.entries.contains_key(request) {
        actions.push(Action::WakeAccept { request: requests.entries[request].token })
    } else {
        actions
    }
}

/// Withdraws a request's success, if the table still holds the request; says
/// whether its connection had been delivered.
pub fn fail_undelivered_accept(
    requests: &mut SlotRegistry<AcceptRequest>,
    request: RequestToken,
    error: Error,
    actions: &mut ReactorActions,
) -> (delivered: bool)
    requires
        old(requests).wf(),
    ensures
        final(requests).wf(),
        final(requests)@ == accept_failed(old(requests)@, request, error),
        final(requests).spent() == old(requests).spent(),
        final(actions)@ == accept_claimed(old(requests)@, request, old(actions)@),
        delivered == accept_delivered(old(requests)@.entries, request),
{
    match requests.get_mut(request) {
        Some(value) => value.fail_undelivered_into(error, actions),
        None => false,
    }
}

/// Accept waiters, their table and the publications, as a listener is ended.
#[verifier::ext_equal]
pub struct WaiterDrain {
    pub waiters: Seq<RequestToken>,
    pub requests: SlotsView<AcceptRequest>,
    pub actions: Seq<Action>,
    pub processed: nat,
}

impl WaiterDrain {
    /// How many more publications fit.
    pub open spec fn room(self) -> int {
        REACTOR_ACTION_BUDGET - self.actions.len()
    }

    /// The oldest waiter failed with `error` and taken off the queue.
    pub open spec fn first_failed(self, error: Error) -> WaiterDrain {
        let released = without_permit(self.requests, self.waiters[0]);
        WaiterDrain {
            waiters: self.waiters.drop_first(),
            requests: accept_completed(released, self.waiters[0], Err(error)),
            actions: accept_woken(released, self.waiters[0], self.actions),
            processed: self.processed + 1,
        }
    }

    /// The waiters failed one after another, oldest first, as long as the budget
    /// and the publications last.
    pub open spec fn drained(self, budget: nat, error: Error) -> WaiterDrain
        decreases self.waiters.len(),
    {
        if self.processed < budget && self.room() >= 1 && self.waiters.len() > 0 {
            self.first_failed(error).drained(budget, error)
        } else {
            self
        }
    }

    /// All waiters failed one after another, oldest first.
    pub open spec fn all_drained(self, error: Error) -> WaiterDrain
        decreases self.waiters.len(),
    {
        if self.waiters.len() > 0 {
            self.first_failed(error).all_drained(error)
        } else {
            self
        }
    }

    /// The selected waiter failed too, if it still holds its permit.
    pub open spec fn selected_ended(self, selected: Option<SelectedAccept>, error: Error) -> WaiterDrain {
        match selected {
            Some(pair) if self.requests.entries.contains_key(pair.waiter())
                && self.requests.entries[pair.waiter()].permit is Some => {
                let released = without_permit(self.requests, pair.waiter());
                WaiterDrain {
                    requests: if pair is Routed {
                        accept_failed(released, pair.waiter(), error)
                    } else {
                        accept_completed(released, pair.waiter(), Err(error))
                    },
                    actions: if pair is Routed {
                        accept_claimed(released, pair.waiter(), self.actions)
                    } else {
                        accept_woken(released, pair.waiter(), self.actions)
                    },
                    processed: self.processed + 1,
                    ..self
                }
            },
            _ => self,
        }
    }

    /// The selected waiter failed too, as long as the budget and the publications
    /// last.
    pub open spec fn selected_failed(
        self,
        selected: Option<SelectedAccept>,
        budget: nat,
        error: Error,
    ) -> WaiterDrain {
        if self.processed < budget && self.room() >= 1 {
            self.selected_ended(selected, error)
        } else {
            self
        }
    }
}

impl ListenerEntry {
    /// The listener and its waiters before any of them is failed with `outcome`.
    pub open spec fn terminal_start(
        view: ListenerView,
        outcome: MemoizedTerminalResult,
        actions: Seq<Action>,
    ) -> (ListenerView, Seq<Action>) {
        let error = outcome->Failed_0;
        let closed = Self::close_requested(
            ListenerView { admission: view.admission.closed_with(error), ..view },
        );
        if view.close.outcome is None {
            (
                ListenerView {
                    close: SessionListenerCloseState { outcome: Some(outcome), ..view.close },
                    ..closed
                },
                actions.push(Action::WakeListener { listener: view.token }),
            )
        } else {
            (closed, actions)
        }
    }

    fn begin_terminal(&mut self, outcome: &MemoizedTerminalResult, actions: &mut ReactorActions) -> (error:
        Error)
        requires
            *outcome is Failed,
        ensures
            error == outcome->Failed_0,
            (final(self)@, final(actions)@) == Self::terminal_start(
                old(self)@,
                *outcome,
                old(actions)@,
            ),
    {
        let error = match outcome {
            MemoizedTerminalResult::Failed(error) => error.clone(),
            MemoizedTerminalResult::Success => Error::TransportClosed,
        };
        self.admission.close_with_error(error.clone());
        let _ = self.request_close();
        if self.close.store_if_empty(outcome.clone()) {
            actions.push(Action::WakeListener { listener: self.token });
        }
        error
    }

    fn end_selected(
        &self,
        requests: &mut SlotRegistry<AcceptRequest>,
        error: Error,
        actions: &mut ReactorActions,
    ) -> (ended: bool)
        requires
            old(requests).wf(),
        ensures
            final(requests).wf(),
            final(requests).spent() == old(requests).spent(),
            forall|waiters: Seq<RequestToken>, processed: nat|
                (#[trigger] (WaiterDrain {
                    waiters,
                    requests: old(requests)@,
                    actions: old(actions)@,
                    processed,
                }).selected_ended(self.selected, error)) == (WaiterDrain {
                    waiters,
                    requests: final(requests)@,
                    actions: final(actions)@,
                    processed: if ended {
                        processed + 1
                    } else {
                        processed
                    },
                }),
    {
        if let Some(selected) = self.selected {
            let request = selected.request();
            if release_accept_permit(requests, request) {
                match selected {
                    SelectedAccept::Routed { .. } => {
                        let _ = fail_undelivered_accept(requests, request, error, actions);
                    },
                    _ => complete_accept(requests, request, Err(error), actions),
                }
                return true;
            }
            assert(requests@.entries =~= old(requests)@.entries);
        }
        false
    }

    /// Ends the listener with the engine's failure: publishes it as the outcome, and
    /// fails all its waiters with it.
    pub fn end_waiters_into(
        &mut self,
        outcome: &MemoizedTerminalResult,
        requests: &mut SlotRegistry<AcceptRequest>,
        actions: &mut ReactorActions,
    )
        requires
            *outcome is Failed,
            old(requests).wf(),
        ensures
            final(requests).wf(),
            final(requests).spent() == old(requests).spent(),
            ({
                let (start, begun) = Self::terminal_start(old(self)@, *outcome, old(actions)@);
                let end = (WaiterDrain {
                    waiters: start.waiters,
                    requests: old(requests)@,
                    actions: begun,
                    processed: 0,
                }).all_drained(outcome->Failed_0).selected_ended(
                    start.selected,
                    outcome->Failed_0,
                );
                &&& final(self)@ == (ListenerView { waiters: end.waiters, ..start })
                &&& final(requests)@ == end.requests
                &&& final(actions)@ == end.actions
            }),
    {
        let error = self.begin_terminal(outcome, actions);
        let ghost start = self@;
        let ghost begin = WaiterDrain {
            waiters: self.waiters@,
            requests: requests@,
            actions: actions@,
            processed: 0,
        };
        let ghost mut done: nat = 0;
        let mut going: bool = true;
        while going
            invariant
                requests.wf(),
                requests.spent() == old(requests).spent(),
                self@ == (ListenerView { waiters: self.waiters@, ..start }),
                (WaiterDrain {
                    waiters: self.waiters@,
                    requests: requests@,
                    actions: actions@,
                    processed: done,
                }).all_drained(error) == begin.all_drained(error),
                !going ==> self.waiters@.len() == 0,
            decreases
                self.waiters@.len(),
                (if going {
                    1int
                } else {
                    0
                }),
        {
            let ghost here = WaiterDrain {
                waiters: self.waiters@,
                requests: requests@,
                actions: actions@,
                processed: done,
            };
            match self.waiters.pop_front() {
                Some(request) => {
                    assert(self.waiters@ =~= here.waiters.drop_first());
                    let _ = release_accept_permit(requests, request);
                    complete_accept(requests, request, Err(error.clone()), actions);
                    proof {
                        done = done + 1;
                        assert(here.all_drained(error) == here.first_failed(error).all_drained(
                            error,
                        ));
                    }
                },
                None => {
                    going = false;
                },
            }
        }
        let ghost drained = WaiterDrain {
            waiters: self.waiters@,
            requests: requests@,
            actions: actions@,
            processed: done,
        };
        assert(drained == begin.all_drained(error));
        let _ = self.end_selected(requests, error, actions);
        assert(drained.selected_ended(start.selected, error).requests == requests@);
    }

    /// Ends the listener with the engine's failure: publishes it as the outcome,
    /// and fails waiters with it, no more than `budget` and no more than fit.
    pub fn terminalize_waiters_into(
        &mut self,
        outcome: &MemoizedTerminalResult,
        requests: &mut SlotRegistry<AcceptRequest>,
        actions: &mut ReactorActions,
        budget: usize,
    ) -> (processed: usize)
        requires
            *outcome is Failed,
            old(requests).wf(),
        ensures
            final(requests).wf(),
            final(requests).spent() == old(requests).spent(),
            ({
                let (start, begun) = Self::terminal_start(old(self)@, *outcome, old(actions)@);
                let end = (WaiterDrain {
                    waiters: start.waiters,
                    requests: old(requests)@,
                    actions: begun,
                    processed: 0,
                }).drained(budget as nat, outcome->Failed_0).selected_failed(
                    old(self)@.selected,
                    budget as nat,
                    outcome->Failed_0,
                );
                &&& final(self)@ == (ListenerView { waiters: end.waiters, ..start })
                &&& final(requests)@ == end.requests
                &&& final(actions)@ == end.actions
                &&& processed == end.processed
            }),
            processed <= budget,
            old(self)@.bounded() ==> final(self)@.bounded(),
    {
        let error = self.begin_terminal(outcome, actions);
        let ghost start = self@;
        let ghost begin = WaiterDrain {
            waiters: self.waiters@,
            requests: requests@,
            actions: actions@,
            processed: 0,
        };
        let mut processed: usize = 0;
        while processed < budget && actions.can_accept(1)
            invariant_except_break
                (WaiterDrain {
                    waiters: self.waiters@,
                    requests: requests@,
                    actions: actions@,
                    processed: processed as nat,
                }).drained(budget as nat, error) == begin.drained(budget as nat, error),
            invariant
                requests.wf(),
                requests.spent() == old(requests).spent(),
                processed <= budget,
                self@ == (ListenerView { waiters: self.waiters@, ..start }),
            ensures
                (WaiterDrain {
                    waiters: self.waiters@,
                    requests: requests@,
                    actions: actions@,
                    processed: processed as nat,
                }) == begin.drained(budget as nat, error),
            decreases budget - processed,
        {
            let ghost here = WaiterDrain {
                waiters: self.waiters@,
                requests: requests@,
                actions: actions@,
                processed: processed as nat,
            };
            match self.waiters.pop_front() {
                Some(request) => {
                    assert(self.waiters@ =~= here.waiters.drop_first());
                    let _ = release_accept_permit(requests, request);
                    complete_accept(requests, request, Err(error.clone()), actions);
                    processed = processed + 1;
                    assert(here.drained(budget as nat, error) == here.first_failed(error).drained(
                        budget as nat,
                        error,
                    ));
                },
                None => {
                    break ;
                },
            }
        }
        if processed < budget && actions.can_accept(1) {
            if self.end_selected(requests, error, actions) {
                processed = processed + 1;
            }
        }
        processed
    }
}

/// The contents of a listener registry.
#[verifier::ext_equal]
pub struct ListenersView {
    pub slots: SlotsView<ListenerEntry>,
    pub raw_ids: Map<u64, ListenerToken>,
}

impl ListenersView {
    pub open spec fn has(self, token: ListenerToken) -> bool {
        self.slots.entries.contains_key(token)
    }

    pub open spec fn entry(self, token: ListenerToken) -> ListenerEntry {
        self.slots.entries[token]
    }

    pub open spec fn set(self, token: ListenerToken, entry: ListenerEntry) -> ListenersView {
        ListenersView { slots: self.slots.set(token, entry), ..self }
    }

    /// Whether `after` differs from this registry in one listener at most, which
    /// is now as `view` says.
    pub open spec fn becomes(
        self,
        after: ListenersView,
        token: ListenerToken,
        view: ListenerView,
    ) -> bool {
        &&& after.has(token)
        &&& after == self.set(token, after.entry(token))
        &&& after.entry(token)@ == view
    }
}

/// All listeners of an engine, with an index by raw identifier.
pub struct ListenerRegistry {
    entries: SlotRegistry<ListenerEntry>,
    raw_ids: HashMap<u64, ListenerToken>,
}

impl ListenerRegistry {
    pub closed spec fn view(&self) -> ListenersView {
        ListenersView { slots: self.entries@, raw_ids: self.raw_ids@ }
    }

    pub closed spec fn spent(&self) -> nat {
        self.entries.spent()
    }

    pub closed spec fn wf(&self) -> bool {
        self.entries.wf()
    }

    pub fn new(capacity: u32) -> (registry: Self)
        ensures
            registry.wf(),
            registry.spent() == 0,
            registry@.slots.entries == Map::<SlotToken, ListenerEntry>::empty(),
            registry@.slots.marks.len() == 0,
            registry@.slots.capacity == capacity,
            registry@.raw_ids == Map::<u64, ListenerToken>::empty(),
    {
        ListenerRegistry { entries: SlotRegistry::new(capacity), raw_ids: HashMap::new() }
    }

    /// Makes room for a listener before its identifier exists.
    pub fn reserve(&mut self, address: String, config: RdmaListenerConfig) -> (result: Result<
        ListenerToken,
        Error,
    >)
        requires
            old(self).wf(),
            config.capacity() <= MAX_PERMITS,
        ensures
            final(self).wf(),
            final(self).spent() == old(self).spent(),
            result is Ok <==> old(self)@.slots.entries.dom().len() + old(self).spent() < old(
                self,
            )@.slots.capacity,
            match result {
                Ok(token) => {
                    let entry = final(self)@.entry(token);
                    &&& old(self)@.slots.may_issue(token)
                    &&& final(self)@ == (ListenersView {
                        slots: old(self)@.slots.added(token, entry),
                        ..old(self)@
                    })
                    &&& entry.token == token
                    &&& entry.requested_addr == address
                    &&& entry.local_addr is None
                    &&& entry.backlog == config.capacity()
                    &&& entry.cm_id is None && !entry.cm_destruction_pending
                    &&& entry.raw_id == 0 && entry.context_key == 0
                    &&& entry.waiters@.len() == 0 && entry.children@.len() == 0
                    &&& entry.selected is None && entry.child_slots_used == 0
                    &&& !entry.closing && !entry.finalization_started && entry.failure is None
                    &&& entry.close.outcome is None
                    &&& entry.admission.open && entry.admission.close_reason is None
                    &&& entry.admission.token == token
                    &&& entry@.admits_backlog()
                    &&& !entry.work_enqueued
                },
                Err(error) => error == Error::CapacityExhausted && final(self)@ == old(self)@,
            },
    {
        match self.entries.next_token() {
            Some(token) => {
                let _ = self.entries.allocate(ListenerEntry::creating(token, address, config));
                Ok(token)
            },
            None => Err(Error::CapacityExhausted),
        }
    }

    /// A token is found exactly if its listener is there, and 32 bits count the slots.
    pub proof fn scanned_are_found(&self)
        requires
            self.wf(),
        ensures
            self@.slots.marks.len() <= self@.slots.capacity <= u32::MAX,
            forall|token: ListenerToken| #[trigger]
                self@.slots.lookup(token) is Occupied <==> self@.has(token),
    {
        self.entries.entries_are_found();
    }

    /// Whether a reserved listener can take an identifier with this raw number.
    pub open spec fn activable(view: ListenersView, token: ListenerToken, raw_id: u64) -> bool {
        &&& !view.raw_ids.contains_key(raw_id)
        &&& view.has(token)
        &&& view.entry(token).cm_id is None && view.entry(token).raw_id == 0 && view.entry(
            token,
        ).context_key == 0
    }

    /// Whether `activate` would take an identifier with this raw number.
    pub fn can_activate(&self, token: ListenerToken, raw_id: u64) -> (able: bool)
        requires
            self.wf(),
        ensures
            able == Self::activable(self@, token, raw_id),
    {
        broadcast use vstd::std_specs::hash::group_hash_axioms;

        if self.raw_ids.contains_key(&raw_id) {
            return false;
        }
        match self.entries.get(token) {
            Some(entry) => entry.cm_id.is_none() && entry.raw_id == 0 && entry.context_key == 0,
            None => false,
        }
    }

    /// Gives a reserved listener its identifier; hands it back where it cannot.
    pub fn activate(
        &mut self,
        token: ListenerToken,
        local_addr: String,
        cm_id: CmId,
        raw_id: u64,
        context_key: u64,
    ) -> (result: Result<(), CmId>)
        requires
            old(self).wf(),
        ensures
            final(self).wf(),
            final(self).spent() == old(self).spent(),
            if Self::activable(old(self)@, token, raw_id) {
                &&& result is Ok
                &&& final(self)@.has(token)
                &&& final(self)@ == (ListenersView {
                    raw_ids: old(self)@.raw_ids.insert(raw_id, token),
                    ..old(self)@.set(token, final(self)@.entry(token))
                })
                &&& final(self)@.entry(token)@ == (ListenerView {
                    local_addr: Some(local_addr),
                    cm_id: Some(cm_id),
                    raw_id,
                    context_key,
                    ..old(self)@.entry(token)@
                })
            } else {
                result == Err::<(), CmId>(cm_id) && final(self)@ == old(self)@
            },
    {
        broadcast use vstd::std_specs::hash::group_hash_axioms;

        if !self.can_activate(token, raw_id) {
            return Err(cm_id);
        }
        if let Some(entry) = self.entries.get_mut(token) {
            entry.local_addr = Some(local_addr);
            entry.cm_id = Some(cm_id);
            entry.raw_id = raw_id;
            entry.context_key = context_key;
        }
        self.raw_ids.insert(raw_id, token);
        Ok(())
    }

    pub fn lookup(&self, token: ListenerToken) -> (found: Lookup<&ListenerEntry>)
        requires
            self.wf(),
        ensures
            match self@.slots.lookup(token) {
                Lookup::Occupied(value) => found == Lookup::Occupied(&value),
                Lookup::Duplicate => found == Lookup::<&ListenerEntry>::Duplicate,
                Lookup::Stale => found == Lookup::<&ListenerEntry>::Stale,
                Lookup::Unknown => found == Lookup::<&ListenerEntry>::Unknown,
                Lookup::Retired => found == Lookup::<&ListenerEntry>::Retired,
            },
            found is Occupied <==> self@.has(token),
    {
        self.entries.lookup_ref(token)
    }

    pub fn get(&self, token: ListenerToken) -> (found: Option<&ListenerEntry>)
        requires
            self.wf(),
        ensures
            match found {
                Some(entry) => self@.has(token) && *entry == self@.entry(token),
                None => !self@.has(token),
            },
    {
        self.entries.get(token)
    }

    pub fn get_mut(&mut self, token: ListenerToken) -> (found: Option<&mut ListenerEntry>)
        requires
            old(self).wf(),
        ensures
            match found {
                Some(entry) => {
                    &&& old(self)@.has(token)
                    &&& *entry == old(self)@.entry(token)
                    &&& final(self).wf()
                    &&& final(self).spent() == old(self).spent()
                    &&& final(self)@ == old(self)@.set(token, *final(entry))
                },
                None => !old(self)@.has(token) && *final(self) == *old(self),
            },
    {
        self.entries.get_mut(token)
    }

    pub fn token_for_raw(&self, raw_id: u64) -> (owner: Option<ListenerToken>)
        requires
            self.wf(),
        ensures
            match owner {
                Some(token) => self@.raw_ids.contains_key(raw_id) && self@.raw_ids[raw_id] == token,
                None => !self@.raw_ids.contains_key(raw_id),
            },
    {
        broadcast use vstd::std_specs::hash::group_hash_axioms;

        match self.raw_ids.get(&raw_id) {
            Some(token) => Some(*token),
            None => None,
        }
    }

    /// Forgets the owner of a raw identifier, if `token` is the owner.
    pub fn remove_identity(&mut self, token: ListenerToken, raw_id: u64) -> (removed: bool)
        requires
            old(self).wf(),
        ensures
            final(self).wf(),
            final(self).spent() == old(self).spent(),
            removed == (old(self)@.raw_ids.contains_key(raw_id) && old(self)@.raw_ids[raw_id]
                == token),
            final(self)@ == if removed {
                ListenersView { raw_ids: old(self)@.raw_ids.remove(raw_id), ..old(self)@ }
            } else {
                old(self)@
            },
    {
        broadcast use vstd::std_specs::hash::group_hash_axioms;

        let owned: bool = match self.token_for_raw(raw_id) {
            Some(owner) => owner == token,
            None => false,
        };
        if owned {
            self.raw_ids.remove(&raw_id);
        }
        owned
    }

    /// The raw-identifier index without the one of `token`.
    pub open spec fn unindexed(view: ListenersView, token: ListenerToken) -> Map<
        u64,
        ListenerToken,
    > {
        let raw_id = view.entry(token).raw_id;
        if view.has(token) && raw_id != 0 && view.raw_ids.contains_key(raw_id)
            && view.raw_ids[raw_id] == token {
            view.raw_ids.remove(raw_id)
        } else {
            view.raw_ids
        }
    }

    /// Takes a listener out and closes its admission.
    pub fn release(&mut self, token: ListenerToken, completed: bool) -> (released: Option<
        ListenerEntry,
    >)
        requires
            old(self).wf(),
        ensures
            final(self).wf(),
            if old(self)@.has(token) {
                &&& released is Some
                &&& released->0@ == ListenerEntry::admission_closed(old(self)@.entry(token)@)
                &&& final(self)@ == (ListenersView {
                    slots: old(self)@.slots.removed(token, completed),
                    raw_ids: Self::unindexed(old(self)@, token),
                })
                &&& final(self).spent() == old(self).spent() + if token.generation == u32::MAX {
                    1int
                } else {
                    0
                }
            } else {
                released is None && final(self)@ == old(self)@ && final(self).spent() == old(
                    self,
                ).spent()
            },
    {
        let raw_id: u64 = match self.entries.get(token) {
            Some(entry) => entry.raw_id,
            None => {
                return None;
            },
        };
        if raw_id != 0 {
            let _ = self.remove_identity(token, raw_id);
        }
        match self.entries.release(token, completed) {
            Some(entry) => {
                let mut entry = entry;
                entry.admission.close();
                Some(entry)
            },
            None => None,
        }
    }

    pub fn live(&self) -> (count: usize)
        requires
            self.wf(),
        ensures
            count == self@.slots.entries.dom().len(),
    {
        self.entries.live()
    }

    pub fn retired(&self) -> (count: usize)
        ensures
            count == self.spent(),
    {
        self.entries.retired()
    }

    pub fn free(&self) -> (count: usize)
        requires
            self.wf(),
        ensures
            count == self@.slots.marks.len() - self@.slots.entries.dom().len() - self.spent(),
    {
        self.entries.free()
    }

    /// Moves the listener under `token` to a later generation of its slot.
    pub fn advance_generation(&mut self, token: ListenerToken, generation: u32) -> (moved: Option<
        ListenerToken,
    >)
        requires
            old(self).wf(),
        ensures
            final(self).wf(),
            final(self).spent() == old(self).spent(),
            moved is Some <==> old(self)@.has(token) && generation >= token.generation,
            match moved {
                Some(later) => {
                    &&& later == (SlotToken { slot: token.slot, generation })
                    &&& final(self)@.has(later)
                    &&& final(self)@.entry(later) == old(self)@.entry(token)
                    &&& final(self)@.slots.entries == old(self)@.slots.entries.remove(token).insert(
                        later,
                        old(self)@.entry(token),
                    )
                    &&& final(self)@.raw_ids == old(self)@.raw_ids
                },
                None => final(self)@ == old(self)@,
            },
    {
        self.entries.advance_generation(token, generation)
    }

    pub fn has_capacity(&self) -> (room: bool)
        requires
            self.wf(),
        ensures
            room == (self@.slots.entries.dom().len() + self.spent() < self@.slots.capacity),
    {
        self.entries.has_capacity()
    }

    pub fn occupied(&self) -> (tokens: Vec<ListenerToken>)
        requires
            self.wf(),
        ensures
            tokens@ == self@.slots.occupied_between(0, self@.slots.marks.len() as int),
            forall|i: int| 0 <= i < tokens@.len() ==> self@.has(#[trigger] tokens@[i]),
    {
        proof {
            self.entries.entries_are_found();
            self@.slots.occupied_are_bounded(0, self@.slots.marks.len() as int);
        }
        self.entries.occupied_tokens()
    }

    /// How many of `tokens` name a listener with an identifier.
    pub open spec fn owners_among(view: ListenersView, tokens: Seq<SlotToken>) -> nat
        decreases tokens.len(),
    {
        if tokens.len() == 0 {
            0
        } else {
            Self::owners_among(view, tokens.drop_last()) + if view.entry(
                tokens.last(),
            ).cm_id is Some {
                1nat
            } else {
                0
            }
        }
    }

    /// How many listeners own an identifier.
    pub fn provider_owner_count(&self) -> (count: usize)
        requires
            self.wf(),
        ensures
            count == Self::owners_among(
                self@,
                self@.slots.occupied_between(0, self@.slots.marks.len() as int),
            ),
    {
        let tokens = self.occupied();
        let mut count: usize = 0;
        let mut next: usize = 0;
        while next < tokens.len()
            invariant
                self.wf(),
                next <= tokens.len(),
                count <= next,
                count == Self::owners_among(self@, tokens@.take(next as int)),
                forall|i: int| 0 <= i < tokens@.len() ==> self@.has(#[trigger] tokens@[i]),
            decreases tokens.len() - next,
        {
            assert(tokens@.take(next as int + 1).drop_last() =~= tokens@.take(next as int));
            assert(self@.has(tokens@[next as int]));
            if let Some(entry) = self.entries.get(tokens[next]) {
                if entry.cm_id.is_some() {
                    count = count + 1;
                }
            }
            next = next + 1;
        }
        assert(tokens@.take(next as int) =~= tokens@);
        count
    }

    /// The listeners from slot `start` on, looking at no more than `budget` slots.
    pub fn scan_occupied(&self, start: usize, budget: usize) -> (scan: (
        Vec<ListenerToken>,
        usize,
        bool,
        usize,
    ))
        requires
            self.wf(),
        ensures
            scan.2 <==> scan.1 >= self@.slots.marks.len(),
            scan.1 == start + scan.3,
            scan.3 == self@.slots.scanned(start as int, budget as int),
            scan.0@ == self@.slots.occupied_between(start as int, scan.1 as int),
    {
        self.entries.scan_occupied_tokens(start, budget)
    }
}

/// A backlog is stored as it is, whatever it is, and a later one makes an earlier one
/// irrelevant to the whole configuration.
pub proof fn the_last_backlog_counts(config: RdmaListenerConfig, earlier: usize, later: usize)
    ensures
        config.with_backlog(later).capacity() == later,
        config.with_backlog(earlier).with_backlog(later) == config.with_backlog(later),
{
}

/// Two configurations with one backlog are one configuration.
pub proof fn the_backlog_is_the_whole_configuration(a: RdmaListenerConfig, b: RdmaListenerConfig)
    requires
        a.capacity() == b.capacity(),
    ensures
        a == b,
{
}

/// The oldest waiter is paired with the oldest child: neither order is changed.
pub proof fn pairing_is_first_come_first_served(
    view: ListenerView,
    requests: Map<SlotToken, AcceptRequest>,
)
    requires
        view.selected is None,
        view.paired(requests).selected is Some,
    ensures
        view.paired(requests).selected == Some(
            SelectedAccept::Ready { request: view.waiters[0], child: view.children[0] },
        ),
        seq![view.waiters[0]] + view.paired(requests).waiters == view.waiters,
        seq![view.children[0]] + view.paired(requests).children == view.children,
{
}

/// While a pair is selected nothing overtakes it: no other pair forms.
pub proof fn selected_pair_is_not_overtaken(
    view: ListenerView,
    requests: Map<SlotToken, AcceptRequest>,
)
    requires
        view.selected is Some,
    ensures
        view.paired(requests) == view,
        view.next(requests).0.selected is Some,
        view.next(requests).0.selected->0.waiter() == view.selected->0.waiter(),
{
}

/// Once its connection was delivered, a pair is only acknowledged: neither a
/// cancellation nor a close reclaims the connection.
pub proof fn delivery_wins_over_close(view: ListenerView, requests: Map<SlotToken, AcceptRequest>)
    requires
        view.selected matches Some(SelectedAccept::Routed { request, .. }) && accept_delivered(
            requests,
            request,
        ),
    ensures
        view.next(requests).1 is AcknowledgeDelivery,
        view.next(requests).0 == view,
{
}

/// A listener is finalized only when it is closing and has neither waiters, nor
/// children, nor a selected pair; and only once.
pub proof fn finalization_comes_last_and_once(
    view: ListenerView,
    requests: Map<SlotToken, AcceptRequest>,
)
    requires
        view.next(requests).1 is FinalizeClose,
    ensures
        view.is_closing(),
        view.waiters.len() == 0 && view.children.len() == 0 && view.selected is None,
        !view.finalization_started,
        view.next(requests).0.finalization_started,
        !(view.next(requests).0.next(requests).1 is FinalizeClose),
{
}

/// A listener without work has nothing to do, except for acknowledging a connection
/// that was delivered although its route was already being closed.
pub proof fn idle_listeners_have_no_work(
    view: ListenerView,
    requests: Map<SlotToken, AcceptRequest>,
)
    requires
        !view.has_work(requests),
        !(view.selected matches Some(SelectedAccept::Routed { request, cancel_started: true, .. })
            && accept_delivered(requests, request)),
    ensures
        view.next(requests) == (view, ListenerAction::Idle),
{
}

/// The slot of a child that was turned away is given back without exceeding the
/// backlog, or losing the slot of another child.
pub proof fn turning_a_child_away_frees_its_slot(
    view: ListenerView,
    requests: Map<SlotToken, AcceptRequest>,
)
    requires
        view.bounded(),
        view.next(requests).1 is RejectChild,
    ensures
        ListenerEntry::slot_released(view.next(requests).0).bounded(),
        ListenerEntry::slot_released(view.next(requests).0).child_slots_used
            == view.child_slots_used - 1,
{
}

/// The backlog bounds admitted accepts throughout: whatever happens to a listener, its
/// accepts go on asking the one semaphore that was made with as many permits as its
/// backlog.
pub proof fn the_backlog_bounds_admitted_accepts(
    view: ListenerView,
    requests: Map<SlotToken, AcceptRequest>,
    request: RequestToken,
    child: IncomingChild,
    error: Error,
    outcome: MemoizedTerminalResult,
    actions: Seq<Action>,
)
    requires
        view.admits_backlog(),
    ensures
        (ListenerView { waiters: view.waiters.push(request), ..view }).paired(
            requests,
        ).admits_backlog(),
        (ListenerView { children: view.children.push(child), ..view }).paired(
            requests,
        ).admits_backlog(),
        view.next(requests).0.admits_backlog(),
        view.unselected(requests).admits_backlog(),
        ListenerEntry::slot_released(view).admits_backlog(),
        ListenerEntry::close_requested(view).admits_backlog(),
        ListenerEntry::failed(view, error).admits_backlog(),
        ListenerEntry::admission_closed(view).admits_backlog(),
        ListenerEntry::close_finished(view, Some(error)).admits_backlog(),
        ListenerEntry::close_finished(view, None).admits_backlog(),
        ListenerEntry::terminal_start(view, outcome, actions).0.admits_backlog(),
{
}

/// A listener closes once: closing it again changes nothing, its first failure stays,
/// and so does the first outcome of its close.
pub proof fn a_listener_closes_once(
    view: ListenerView,
    first: Error,
    second: Error,
    outcome: Option<Error>,
    later: Option<Error>,
)
    ensures
        ListenerEntry::close_requested(ListenerEntry::close_requested(view))
            == ListenerEntry::close_requested(view),
        ListenerEntry::failed(ListenerEntry::failed(view, first), second)
            == ListenerEntry::failed(view, first),
        ListenerEntry::close_finished(ListenerEntry::close_finished(view, outcome), later)
            == ListenerEntry::close_finished(view, outcome),
{
}

/// A closing listener takes neither waiters nor children any more: nothing is paired.
pub proof fn closing_listeners_pair_nothing(
    view: ListenerView,
    requests: Map<SlotToken, AcceptRequest>,
)
    requires
        view.is_closing(),
    ensures
        !(view.next(requests).1 is ProcessSelected),
        view.selected is None ==> view.next(requests).0.selected is None,
        view.next(requests).0.is_closing(),
{
}

} // verus!
