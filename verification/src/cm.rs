//! Connection-manager routing state shared by outbound and inbound setup.

use vstd::prelude::*;
use vstd::string::StringExecFns;

use std::collections::{HashMap, VecDeque};

use crate::connection::CmId;
use crate::error::{Error, IoError};
use crate::event::PendingCmEvent;
use crate::listener::{ListenerEntry, ListenerRegistry, ListenerView, ListenersView};
use crate::registry::ConnectionRegistry;
use crate::requests::AcceptRequest;
use crate::slots::{SlotRegistry, SlotsView};
use crate::token::{CmRouteToken, ConnectionToken, ListenerToken, RequestToken, SlotToken};

verus! {

/// What a context key of the connection manager stands for.
#[allow(inconsistent_fields)]
#[derive(Clone, Copy, Debug, PartialEq, Eq, Structural)]
pub enum ContextRoute {
    Outbound { token: CmRouteToken, raw_id: u64 },
    Inbound { token: CmRouteToken, raw_id: u64 },
    Listener { token: ListenerToken, raw_id: u64 },
}

/// A class of queued connection-manager work.
#[derive(Clone, Copy, Debug, PartialEq, Eq, Structural)]
pub enum CmSoftwareClass {
    Cancellation,
    Retirement,
    OutboundStart,
    ListenStart,
    ListenerWork,
}

impl CmSoftwareClass {
    pub open spec fn position(self) -> int {
        match self {
            CmSoftwareClass::Cancellation => 0,
            CmSoftwareClass::Retirement => 1,
            CmSoftwareClass::OutboundStart => 2,
            CmSoftwareClass::ListenStart => 3,
            CmSoftwareClass::ListenerWork => 4,
        }
    }

    /// The place of the class in a snapshot.
    pub fn index(self) -> (index: usize)
        ensures
            index == self.position(),
    {
        match self {
            CmSoftwareClass::Cancellation => 0,
            CmSoftwareClass::Retirement => 1,
            CmSoftwareClass::OutboundStart => 2,
            CmSoftwareClass::ListenStart => 3,
            CmSoftwareClass::ListenerWork => 4,
        }
    }
}

/// How much work of each class was queued at one moment.
#[derive(Clone, Copy, Debug)]
pub struct CmSoftwareSnapshot {
    pub remaining: [usize; 5],
}

impl CmSoftwareSnapshot {
    pub fn count(self, class: CmSoftwareClass) -> (count: usize)
        ensures
            count == self.remaining@[class.position()],
    {
        self.remaining[class.index()]
    }
}

/// What is owed to an accept once the connection of its route has retired.
#[derive(Debug)]
pub struct InboundRetirementCompletion {
    pub listener: ListenerToken,
    pub route: u64,
    pub request: Option<RequestToken>,
    pub result: Option<Error>,
    pub selected: bool,
}

/// An identifier that is destroyed once no event can refer to it.
#[derive(Debug)]
pub enum PendingCmDestruction {
    Route(CmId),
    Connection {
        cm_id: CmId,
        token: ConnectionToken,
        completion: Option<InboundRetirementCompletion>,
    },
    Listener { cm_id: CmId, listener: ListenerToken },
}

impl PendingCmDestruction {
    pub open spec fn owned_id(self) -> CmId {
        match self {
            PendingCmDestruction::Route(cm_id) => cm_id,
            PendingCmDestruction::Connection { cm_id, .. } => cm_id,
            PendingCmDestruction::Listener { cm_id, .. } => cm_id,
        }
    }

    pub fn cm_id(&self) -> (cm_id: &CmId)
        ensures
            *cm_id == self.owned_id(),
    {
        match self {
            PendingCmDestruction::Route(cm_id)
            | PendingCmDestruction::Connection { cm_id, .. }
            | PendingCmDestruction::Listener { cm_id, .. } => cm_id,
        }
    }

    pub open spec fn owning_listener(self) -> Option<ListenerToken> {
        match self {
            PendingCmDestruction::Listener { listener, .. } => Some(listener),
            _ => None,
        }
    }

    pub fn listener(&self) -> (listener: Option<ListenerToken>)
        ensures
            listener == self.owning_listener(),
    {
        match self {
            PendingCmDestruction::Listener { listener, .. } => Some(*listener),
            _ => None,
        }
    }
}

/// The connection-manager state, as contracts speak of it.
#[verifier::ext_equal]
pub struct CmView {
    pub routes: Map<u64, ContextRoute>,
    pub pending_listens: Seq<(ListenerToken, RequestToken)>,
    pub listener_work: Seq<ListenerToken>,
    pub listeners: ListenersView,
    pub listeners_spent: nat,
    pub destructions: Seq<PendingCmDestruction>,
    pub quarantined: Seq<CmId>,
    pub pending_event: Option<PendingCmEvent>,
    pub shutting_down: bool,
}

/// A sum as the counters report it.
pub open spec fn saturated(sum: nat) -> usize {
    if sum <= usize::MAX {
        sum as usize
    } else {
        usize::MAX
    }
}

impl CmView {
    /// The state of a connection manager that nothing was asked of yet, with room for
    /// `capacity` listeners.
    pub open spec fn idle(capacity: nat) -> CmView {
        CmView {
            routes: Map::empty(),
            pending_listens: Seq::empty(),
            listener_work: Seq::empty(),
            listeners: ListenersView {
                slots: SlotsView::unused(capacity),
                raw_ids: Map::empty(),
            },
            listeners_spent: 0,
            destructions: Seq::empty(),
            quarantined: Seq::empty(),
            pending_event: None,
            shutting_down: false,
        }
    }

    /// Whether `after` is this state once work for a listener was queued. A
    /// listener is queued once at a time.
    pub open spec fn queues_work(self, after: CmView, listener: ListenerToken) -> bool {
        if self.listeners.has(listener) && !self.listeners.entry(listener).work_enqueued {
            &&& after == (CmView {
                listener_work: self.listener_work.push(listener),
                listeners: after.listeners,
                ..self
            })
            &&& self.listeners.becomes(
                after.listeners,
                listener,
                ListenerView { work_enqueued: true, ..self.listeners.entry(listener)@ },
            )
        } else {
            after == self
        }
    }

    /// The state after a listener was taken out.
    pub open spec fn without_listener(self, token: ListenerToken, completed: bool) -> CmView {
        if self.listeners.has(token) {
            CmView {
                listeners: ListenersView {
                    slots: self.listeners.slots.removed(token, completed),
                    raw_ids: ListenerRegistry::unindexed(self.listeners, token),
                },
                listeners_spent: if token.generation == u32::MAX {
                    self.listeners_spent + 1
                } else {
                    self.listeners_spent
                },
                ..self
            }
        } else {
            self
        }
    }

    /// The context routes without the one that `cm_id` owns.
    pub open spec fn routes_without(self, cm_id: CmId) -> Map<u64, ContextRoute> {
        match cm_id.context_token {
            Some(route_token) => if CmState::owns_route(
                self.routes,
                cm_id.context_key,
                cm_id.raw_id,
                route_token,
            ) {
                self.routes.remove(cm_id.context_key)
            } else {
                self.routes
            },
            None => self.routes,
        }
    }
}

/// Listeners, context routes and deferred destructions of the connection manager.
pub struct CmState {
    pub context_routes: HashMap<u64, ContextRoute>,
    pub pending_listens: VecDeque<(ListenerToken, RequestToken)>,
    pub listener_work: VecDeque<ListenerToken>,
    pub listeners: ListenerRegistry,
    pub cm_destructions: VecDeque<PendingCmDestruction>,
    pub quarantined: Vec<CmId>,
    pub pending_event: Option<PendingCmEvent>,
    pub shutting_down: bool,
}

impl CmState {
    pub open spec fn view(&self) -> CmView {
        CmView {
            routes: self.context_routes@,
            pending_listens: self.pending_listens@,
            listener_work: self.listener_work@,
            listeners: self.listeners@,
            listeners_spent: self.listeners.spent(),
            destructions: self.cm_destructions@,
            quarantined: self.quarantined@,
            pending_event: self.pending_event,
            shutting_down: self.shutting_down,
        }
    }

    pub open spec fn wf(&self) -> bool {
        self.listeners.wf()
    }

    pub fn new(capacity: u32) -> (state: Self)
        ensures
            state.wf(),
            state@ == CmView::idle(capacity as nat),
    {
        CmState {
            context_routes: HashMap::new(),
            pending_listens: VecDeque::new(),
            listener_work: VecDeque::new(),
            listeners: ListenerRegistry::new(capacity),
            cm_destructions: VecDeque::new(),
            quarantined: Vec::new(),
            pending_event: None,
            shutting_down: false,
        }
    }

    pub fn enqueue_listen(&mut self, listener: ListenerToken, request: RequestToken)
        ensures
            final(self)@ == (CmView {
                pending_listens: old(self)@.pending_listens.push((listener, request)),
                ..old(self)@
            }),
            final(self).listeners == old(self).listeners,
    {
        self.pending_listens.push_back((listener, request));
    }

    /// Queues work for a listener, unless it is queued.
    pub fn enqueue_listener_work(&mut self, listener: ListenerToken)
        requires
            old(self).wf(),
        ensures
            final(self).wf(),
            old(self)@.queues_work(final(self)@, listener),
    {
        let claimed: bool = match self.listeners.get(listener) {
            Some(entry) => !entry.work_enqueued,
            None => false,
        };
        if claimed {
            if let Some(entry) = self.listeners.get_mut(listener) {
                let _ = entry.try_enqueue_work();
            }
            self.listener_work.push_back(listener);
        }
    }

    /// Queues the destruction of an identifier.
    pub fn defer_cm_id(&mut self, cm_id: CmId)
        ensures
            final(self)@ == (CmView {
                destructions: old(self)@.destructions.push(PendingCmDestruction::Route(cm_id)),
                ..old(self)@
            }),
            final(self).listeners == old(self).listeners,
    {
        self.cm_destructions.push_back(PendingCmDestruction::Route(cm_id));
    }

    /// Takes a listener out and closes its admission.
    pub fn release_listener(&mut self, token: ListenerToken, completed: bool) -> (released: Option<
        ListenerEntry,
    >)
        requires
            old(self).wf(),
        ensures
            final(self).wf(),
            final(self)@ == old(self)@.without_listener(token, completed),
            match released {
                Some(entry) => old(self)@.listeners.has(token) && entry@
                    == ListenerEntry::admission_closed(old(self)@.listeners.entry(token)@),
                None => !old(self)@.listeners.has(token),
            },
    {
        self.listeners.release(token, completed)
    }

    /// Defers the destruction of the identifier of a retiring connection.
    pub fn defer_connection_cm_id(
        &mut self,
        token: ConnectionToken,
        cm_id: CmId,
        completion: Option<InboundRetirementCompletion>,
    )
        requires
            old(self).wf(),
        ensures
            final(self).wf(),
            final(self)@ == (CmView {
                destructions: old(self)@.destructions.push(
                    PendingCmDestruction::Connection { cm_id, token, completion },
                ),
                ..old(self)@
            }),
    {
        self.cm_destructions.push_back(
            PendingCmDestruction::Connection { cm_id, token, completion },
        );
    }

    /// Keeps an identifier out of ordinary destruction.
    pub fn quarantine_cm_id(&mut self, cm_id: CmId)
        ensures
            final(self)@ == (CmView {
                quarantined: old(self)@.quarantined.push(cm_id),
                ..old(self)@
            }),
            final(self).listeners == old(self).listeners,
    {
        self.quarantined.push(cm_id);
    }

    /// Whether `after` is the state once the destruction of a listener's identifier was queued.
    pub open spec fn defers_listener(
        before: CmView,
        after: CmView,
        listener: ListenerToken,
        cm_id: CmId,
    ) -> bool {
        &&& after == (CmView {
            destructions: before.destructions.push(
                PendingCmDestruction::Listener { cm_id, listener },
            ),
            listeners: after.listeners,
            ..before
        })
        &&& if before.listeners.has(listener) {
            before.listeners.becomes(
                after.listeners,
                listener,
                ListenerView {
                    cm_destruction_pending: true,
                    ..before.listeners.entry(listener)@
                },
            )
        } else {
            after.listeners == before.listeners
        }
    }

    /// Queues the destruction of a listener's identifier.
    pub fn defer_listener_cm_id(&mut self, listener: ListenerToken, cm_id: CmId)
        requires
            old(self).wf(),
        ensures
            final(self).wf(),
            Self::defers_listener(old(self)@, final(self)@, listener, cm_id),
    {
        if let Some(entry) = self.listeners.get_mut(listener) {
            entry.mark_cm_destruction_pending();
        }
        self.cm_destructions.push_back(PendingCmDestruction::Listener { cm_id, listener });
    }

    /// Adds a context route, unless its key is taken.
    pub fn insert_context_route(&mut self, context_key: u64, route: ContextRoute) -> (inserted: bool)
        ensures
            inserted == !old(self)@.routes.contains_key(context_key),
            final(self)@ == if inserted {
                CmView { routes: old(self)@.routes.insert(context_key, route), ..old(self)@ }
            } else {
                old(self)@
            },
            final(self).listeners == old(self).listeners,
    {
        broadcast use vstd::std_specs::hash::group_hash_axioms;

        if self.context_routes.contains_key(&context_key) {
            return false;
        }
        self.context_routes.insert(context_key, route);
        true
    }

    /// Gives a reserved listener its identifier and its context route, both or
    /// neither; hands the identifier back where it cannot.
    pub fn activate_listener_identity(
        &mut self,
        token: ListenerToken,
        local_addr: String,
        cm_id: CmId,
        raw_id: u64,
        context_key: u64,
    ) -> (result: Result<(), CmId>)
        requires
            old(self).wf(),
        ensures
            final(self).wf(),
            if !old(self)@.routes.contains_key(context_key) && ListenerRegistry::activable(
                old(self)@.listeners,
                token,
                raw_id,
            ) {
                &&& result is Ok
                &&& final(self)@ == (CmView {
                    routes: old(self)@.routes.insert(
                        context_key,
                        ContextRoute::Listener { token, raw_id },
                    ),
                    listeners: final(self)@.listeners,
                    ..old(self)@
                })
                &&& final(self)@.listeners.has(token)
                &&& final(self)@.listeners == (ListenersView {
                    raw_ids: old(self)@.listeners.raw_ids.insert(raw_id, token),
                    ..old(self)@.listeners.set(token, final(self)@.listeners.entry(token))
                })
                &&& final(self)@.listeners.entry(token)@ == (ListenerView {
                    local_addr: Some(local_addr),
                    cm_id: Some(cm_id),
                    raw_id,
                    context_key,
                    ..old(self)@.listeners.entry(token)@
                })
            } else {
                result == Err::<(), CmId>(cm_id) && final(self)@ == old(self)@
            },
    {
        broadcast use vstd::std_specs::hash::group_hash_axioms;

        if self.context_routes.contains_key(&context_key) {
            return Err(cm_id);
        }
        match self.listeners.activate(token, local_addr, cm_id, raw_id, context_key) {
            Ok(()) => {
                self.context_routes.insert(context_key, ContextRoute::Listener { token, raw_id });
                Ok(())
            },
            Err(cm_id) => Err(cm_id),
        }
    }

    /// Whether a context route belongs to the identifier with this raw number and route token.
    pub open spec fn owns_route(
        routes: Map<u64, ContextRoute>,
        context_key: u64,
        raw_id: u64,
        route_token: u64,
    ) -> bool {
        routes.contains_key(context_key) && match routes[context_key] {
            ContextRoute::Outbound { token, raw_id: owner } => token.encoded() == route_token
                && owner == raw_id,
            ContextRoute::Inbound { token, raw_id: owner } => token.encoded() == route_token
                && owner == raw_id,
            ContextRoute::Listener { token, raw_id: owner } => token.encoded() == route_token
                && owner == raw_id,
        }
    }

    /// Removes a context route, if it belongs to the given identifier.
    pub fn remove_context_route_if_owned(
        &mut self,
        context_key: u64,
        raw_id: u64,
        route_token: Option<u64>,
    ) -> (removed: bool)
        ensures
            removed == (route_token matches Some(token) && Self::owns_route(
                old(self)@.routes,
                context_key,
                raw_id,
                token,
            )),
            final(self)@ == if removed {
                CmView { routes: old(self)@.routes.remove(context_key), ..old(self)@ }
            } else {
                old(self)@
            },
            final(self).listeners == old(self).listeners,
    {
        broadcast use vstd::std_specs::hash::group_hash_axioms;

        let route_token: u64 = match route_token {
            Some(token) => token,
            None => {
                return false;
            },
        };
        let owned: bool = match self.context_routes.get(&context_key) {
            Some(ContextRoute::Outbound { token, raw_id: owner })
            | Some(ContextRoute::Inbound { token, raw_id: owner })
            | Some(ContextRoute::Listener { token, raw_id: owner }) => token.encode()
                == route_token && *owner == raw_id,
            None => false,
        };
        if owned {
            self.context_routes.remove(&context_key);
        }
        owned
    }

    /// Removes the context route of an identifier, if it is its own.
    pub fn remove_owned_context_route(&mut self, cm_id: &CmId)
        ensures
            final(self)@ == (CmView { routes: old(self)@.routes_without(*cm_id), ..old(self)@ }),
            final(self).listeners == old(self).listeners,
    {
        let _ = self.remove_context_route_if_owned(
            cm_id.context_key,
            cm_id.raw_id,
            cm_id.context_token,
        );
    }

    pub fn has_software_work(&self, connections: &ConnectionRegistry) -> (work: bool)
        ensures
            work == (connections@.pending_outbound.len() > 0 || self@.pending_listens.len() > 0
                || connections@.cancellations.len() > 0 || self@.listener_work.len() > 0
                || connections@.retirements.len() > 0 || self@.destructions.len() > 0),
    {
        connections.pending_outbound_count() != 0 || self.pending_listens.len() != 0
            || connections.cancellation_count() != 0 || self.listener_work.len() != 0
            || connections.retirement_count() != 0 || self.cm_destructions.len() != 0
    }

    pub fn non_destruction_software_work_count(&self, connections: &ConnectionRegistry) -> (count:
        usize)
        ensures
            count == saturated(
                connections@.pending_outbound.len() + self@.pending_listens.len()
                    + connections@.cancellations.len() + self@.listener_work.len()
                    + connections@.retirements.len(),
            ),
    {
        connections.pending_outbound_count().saturating_add(
            self.pending_listens.len(),
        ).saturating_add(connections.cancellation_count()).saturating_add(
            self.listener_work.len(),
        ).saturating_add(connections.retirement_count())
    }

    pub fn has_non_destruction_software_work(&self, connections: &ConnectionRegistry) -> (work:
        bool)
        ensures
            work == (connections@.pending_outbound.len() > 0 || self@.pending_listens.len() > 0
                || connections@.cancellations.len() > 0 || self@.listener_work.len() > 0
                || connections@.retirements.len() > 0),
    {
        self.non_destruction_software_work_count(connections) != 0
    }

    pub fn destruction_work_count(&self) -> (count: usize)
        ensures
            count == self@.destructions.len(),
    {
        self.cm_destructions.len()
    }

    pub fn has_destruction_work(&self) -> (work: bool)
        ensures
            work == (self@.destructions.len() > 0),
    {
        self.cm_destructions.len() != 0
    }

    pub fn listener_work_count(&self) -> (count: usize)
        ensures
            count == self@.listener_work.len(),
    {
        self.listener_work.len()
    }

    pub fn listener_count(&self) -> (count: usize)
        requires
            self.wf(),
        ensures
            count == self@.listeners.slots.entries.dom().len(),
    {
        self.listeners.live()
    }

    pub fn has_pending_event(&self) -> (pending: bool)
        ensures
            pending == self@.pending_event is Some,
    {
        self.pending_event.is_some()
    }

    pub fn take_pending_event(&mut self) -> (event: Option<PendingCmEvent>)
        ensures
            event == old(self)@.pending_event,
            final(self)@ == (CmView { pending_event: None, ..old(self)@ }),
            final(self).listeners == old(self).listeners,
    {
        self.pending_event.take()
    }

    /// Keeps an event that was read while an identifier waited for its
    /// destruction; true when an event is now kept. An event that was kept before
    /// stays, and `acquired` is then not looked at.
    pub fn defer_one_event(&mut self, acquired: Option<PendingCmEvent>) -> (deferred: bool)
        ensures
            deferred == (old(self)@.pending_event is Some || acquired is Some),
            final(self)@ == if old(self)@.pending_event is Some {
                old(self)@
            } else {
                CmView { pending_event: acquired, ..old(self)@ }
            },
            final(self).listeners == old(self).listeners,
    {
        if self.pending_event.is_some() {
            return true;
        }
        self.pending_event = acquired;
        self.pending_event.is_some()
    }

    pub fn software_snapshot(&self, connections: &ConnectionRegistry) -> (snapshot:
        CmSoftwareSnapshot)
        ensures
            snapshot.remaining@ == seq![
                connections@.cancellations.len() as usize,
                connections@.retirements.len() as usize,
                connections@.pending_outbound.len() as usize,
                self@.pending_listens.len() as usize,
                self@.listener_work.len() as usize,
            ],
    {
        let snapshot = CmSoftwareSnapshot {
            remaining: [
                connections.cancellation_count(),
                connections.retirement_count(),
                connections.pending_outbound_count(),
                self.pending_listens.len(),
                self.listener_work.len(),
            ],
        };
        assert(snapshot.remaining@ =~= seq![
            connections@.cancellations.len() as usize,
            connections@.retirements.len() as usize,
            connections@.pending_outbound.len() as usize,
            self@.pending_listens.len() as usize,
            self@.listener_work.len() as usize,
        ]);
        snapshot
    }

    /// How many connections, listeners and identifiers are still owned.
    pub fn retained_owner_count(&self, connections: &ConnectionRegistry) -> (count: usize)
        requires
            self.wf(),
            connections.wf(),
        ensures
            count == saturated(
                connections@.slots.entries.dom().len() + self@.listeners.slots.entries.dom().len()
                    + self@.destructions.len(),
            ),
    {
        connections.live().saturating_add(self.listeners.live()).saturating_add(
            self.cm_destructions.len(),
        )
    }

    /// How many listeners and identifiers are still owned.
    pub fn retained_session_owner_count(&self) -> (count: usize)
        requires
            self.wf(),
        ensures
            count == saturated(
                self@.listeners.slots.entries.dom().len() + self@.destructions.len(),
            ),
    {
        self.listeners.live().saturating_add(self.cm_destructions.len())
    }

    /// How much listener and destruction work is pending.
    pub fn pending_lifecycle_work_count(&self) -> (count: usize)
        requires
            self.wf(),
        ensures
            count == saturated(
                self@.pending_listens.len() + self@.listener_work.len() + self@.destructions.len()
                    + self@.listeners.slots.entries.dom().len(),
            ),
    {
        self.pending_listens.len().saturating_add(self.listener_work.len()).saturating_add(
            self.cm_destructions.len(),
        ).saturating_add(self.listeners.live())
    }

    /// Whether `after` is the state once an inbound selection on `route` ended at
    /// its listener; the listener is queued for work if it did.
    pub open spec fn ends_selection(
        before: CmView,
        after: CmView,
        listener: ListenerToken,
        route: u64,
        requests: Map<SlotToken, AcceptRequest>,
    ) -> bool {
        if before.listeners.has(listener) && ListenerEntry::selects_route(
            before.listeners.entry(listener)@,
            route,
        ) {
            let ended = before.listeners.entry(listener)@.unselected(requests);
            &&& after == (CmView {
                listeners: after.listeners,
                listener_work: if before.listeners.entry(listener).work_enqueued {
                    before.listener_work
                } else {
                    before.listener_work.push(listener)
                },
                ..before
            })
            &&& before.listeners.becomes(
                after.listeners,
                listener,
                ListenerView { work_enqueued: true, ..ended },
            )
        } else {
            after == before
        }
    }

    /// Ends the selection on `route` at its listener, queueing the listener for work.
    pub fn finish_selected_route(
        &mut self,
        listener: ListenerToken,
        route: u64,
        requests: &mut SlotRegistry<AcceptRequest>,
    ) -> (finished: bool)
        requires
            old(self).wf(),
            old(requests).wf(),
        ensures
            final(self).wf(),
            final(requests).wf(),
            final(requests).spent() == old(requests).spent(),
            finished == (old(self)@.listeners.has(listener) && ListenerEntry::selects_route(
                old(self)@.listeners.entry(listener)@,
                route,
            )),
            Self::ends_selection(
                old(self)@,
                final(self)@,
                listener,
                route,
                old(requests)@.entries,
            ),
            final(requests)@ == if finished {
                crate::listener::without_permit(
                    old(requests)@,
                    old(self)@.listeners.entry(listener).selected->0.waiter(),
                )
            } else {
                old(requests)@
            },
    {
        let selects: bool = match self.listeners.get(listener) {
            Some(entry) => entry.has_selected_route(route),
            None => false,
        };
        if !selects {
            return false;
        }
        if let Some(entry) = self.listeners.get_mut(listener) {
            let _ = entry.finish_selected_route(route, requests);
        }
        self.enqueue_listener_work(listener);
        assert(self@.listeners.slots.entries =~= old(self)@.listeners.slots.entries.insert(
            listener,
            self@.listeners.entry(listener),
        ));
        true
    }
}

/// The text of an error with its context in front.
pub open spec fn contextual_text(context: Seq<char>, detail: Seq<char>) -> Seq<char> {
    context + ": "@ + detail
}

/// Whether `with_context` is `error` with a context in front of its text. A verbs
/// error keeps its category; any other becomes a configuration error.
pub open spec fn is_contextual(context: Seq<char>, error: Error, with_context: Error) -> bool {
    match error {
        Error::Verbs(source) => with_context.is_verbs(
            source.kind,
            contextual_text(context, source.message@),
        ),
        other => with_context.is_invalid_config(contextual_text(context, other.text())),
    }
}

/// Puts a context in front of an error's text.
pub fn contextual_cm_error(context: &str, error: Error) -> (with_context: Error)
    ensures
        is_contextual(context@, error, with_context),
{
    let mut text: String = String::new();
    text.append(context);
    text.append(": ");
    match error {
        Error::Verbs(source) => {
            text.append(source.message.as_str());
            assert(text@ =~= contextual_text(context@, source.message@));
            Error::Verbs(IoError::new(source.kind, text))
        },
        other => {
            let detail: String = other.to_string();
            text.append(detail.as_str());
            assert(text@ =~= contextual_text(context@, other.text()));
            Error::InvalidConfig(text)
        },
    }
}

/// The text of an error without the words that name its category.
pub open spec fn detail_text(error: Error) -> Seq<char> {
    match error {
        Error::Verbs(source) => source.message@,
        Error::PostFailed(source) => source.message@,
        Error::InvalidConfig(message) => message@,
        Error::ProtocolViolation(message) => message@,
        other => other.text(),
    }
}

pub fn error_detail(error: &Error) -> (detail: String)
    ensures
        detail@ == detail_text(*error),
{
    match error {
        Error::Verbs(source) | Error::PostFailed(source) => source.message.clone(),
        Error::InvalidConfig(message) | Error::ProtocolViolation(message) => message.clone(),
        other => other.to_string(),
    }
}

} // verus!
