//! The lifecycle of every connection: one owning entry per slot, with exact indexes.

use vstd::prelude::*;
use vstd::string::StringExecFns;

use std::collections::{HashMap, VecDeque};
use std::sync::Arc;
use tokio::sync::Semaphore;

use crate::actions::{Action, IoTerminalEvent, ReactorActions};
use crate::admission::{
    available_permits, counts_in, new_semaphore, permit_source, permits_made, try_acquire,
    BundleCount, BundleMark, ConnectionReservation, ConnectionStateCountSnapshot, MAX_PERMITS,
};
use crate::connection::{
    CmId, ConnectionPoster, ConnectionState, QpDestroyStatus, QpDestructionProof,
};
use crate::error::Error;
use crate::routes::{
    ConnectionCmRoute, ConnectionRouteDirection, ConnectionRouteIdentity, InboundRoute,
    InboundState, OutboundRoute, OutboundState, Route,
};
use crate::slots::{Lookup, SlotRegistry, SlotsView};
use crate::text::append_decimal;
use crate::text::decimal;
use crate::token::{ConnectionToken, ListenerToken, OperationToken, RequestToken, SlotToken};

verus! {

/// What a scheduled deadline is for.
#[derive(Clone, Copy, Debug, PartialEq, Eq, Structural)]
pub enum DeadlineKind {
    ConnectionDrain,
    EngineShutdown,
}

/// A deadline to be scheduled, in nanoseconds of the engine's clock.
#[derive(Clone, Copy, Debug, PartialEq, Eq, Structural)]
pub struct DeadlineRequest {
    pub at: u64,
    pub kind: DeadlineKind,
    pub token: u64,
}

/// The instant `after` nanoseconds from `now`, or `now` where the clock ends before it.
pub open spec fn deadline_at(now: u64, after: u64) -> u64 {
    if now + after <= u64::MAX {
        (now + after) as u64
    } else {
        now
    }
}

/// How far a connection has come.
#[derive(Clone, Copy, Debug, PartialEq, Eq, Structural)]
pub enum Lifecycle {
    Outbound,
    Inbound,
    Active,
    Draining,
    Retiring { started: bool },
    Retired,
}

/// How far a connection has come, as diagnostics show it.
#[derive(Clone, Copy, Debug, PartialEq, Eq, Structural)]
pub enum ConnectionPhase {
    Outbound,
    Inbound,
    Active,
    Draining,
    Retiring,
    Quarantined,
    Retired,
}

/// The resources of a setup that could be neither completed nor undone.
pub struct SetupOwner {
    pub poster: ConnectionPoster,
    pub reservation: ConnectionReservation,
}

/// The sole owner of everything that belongs to one connection.
///
/// The route, the admission, the queue pair with its ledger, the close state and
/// the quarantine move together; no part of an entry has another owner.
pub struct ConnectionEntry {
    pub lifecycle: Lifecycle,
    /// A quarantine, and whether it holds the whole bundle or only operations.
    pub quarantine: Option<bool>,
    pub route: Route,
    pub connection: Option<ConnectionState>,
    pub setup: Option<SetupOwner>,
}

impl ConnectionEntry {
    /// What holds of every entry.
    pub open spec fn wf(self) -> bool {
        &&& self.lifecycle is Outbound ==> self.route is Outbound
        &&& self.lifecycle is Inbound ==> self.route is Inbound
        &&& self.connection is None ==> self.lifecycle is Outbound || self.lifecycle is Inbound
        &&& self.setup is Some ==> self.connection is None && self.quarantine == Some(true)
    }

    pub open spec fn has_route(self) -> bool {
        !(self.route is Unrouted)
    }

    /// Whether the entry is a route that no queue pair was registered for.
    pub open spec fn is_establishing(self) -> bool {
        self.quarantine is None && self.connection is None
    }

    /// Whether the entry has a queue pair registered but is not yet established.
    pub open spec fn is_registered(self) -> bool {
        self.quarantine is None && self.connection is Some && (self.lifecycle is Outbound
            || self.lifecycle is Inbound)
    }

    pub open spec fn is_live(self, lifecycle: Lifecycle) -> bool {
        self.quarantine is None && self.lifecycle == lifecycle
    }

    pub open spec fn close_started(self) -> bool {
        self.lifecycle is Draining || self.lifecycle is Retiring
    }

    /// The reservation of a route that has no queue pair yet.
    pub open spec fn route_reservation(self) -> Option<ConnectionReservation> {
        match self.route {
            Route::Outbound(route) => route.state.held(),
            Route::Inbound(route) => route.state.held(),
            Route::Unrouted => None,
        }
    }

    /// The admission of this entry.
    pub open spec fn admitted(self) -> Option<ConnectionReservation> {
        match self.connection {
            Some(connection) => connection.admission,
            None => match self.setup {
                Some(owner) => Some(owner.reservation),
                None => self.route_reservation(),
            },
        }
    }

    /// What this entry is counted by.
    pub open spec fn marked(self) -> Option<BundleMark> {
        match self.admitted() {
            Some(reservation) => Some(reservation.marked()),
            None => None,
        }
    }

    fn mark(&self) -> (mark: Option<BundleMark>)
        ensures
            mark == self.marked(),
    {
        match self.reservation() {
            Some(reservation) => Some(reservation.mark()),
            None => None,
        }
    }

    /// The entry with the quarantine of its admission recorded.
    pub open spec fn admission_quarantined(self) -> ConnectionEntry {
        match self.connection {
            Some(connection) => ConnectionEntry {
                connection: Some(connection.reservation_quarantined()),
                ..self
            },
            None => match self.setup {
                Some(owner) => ConnectionEntry {
                    setup: Some(
                        SetupOwner { reservation: owner.reservation.quarantined(), ..owner },
                    ),
                    ..self
                },
                None => ConnectionEntry {
                    route: match self.route {
                        Route::Outbound(route) => Route::Outbound(
                            OutboundRoute {
                                state: match route.state {
                                    OutboundState::AwaitAddr { cm_id, request, reservation } =>
                                    OutboundState::AwaitAddr {
                                        cm_id,
                                        request,
                                        reservation: reservation.quarantined(),
                                    },
                                    OutboundState::AwaitRoute { cm_id, request, reservation } =>
                                    OutboundState::AwaitRoute {
                                        cm_id,
                                        request,
                                        reservation: reservation.quarantined(),
                                    },
                                    other => other,
                                },
                                ..route
                            },
                        ),
                        Route::Inbound(route) => Route::Inbound(
                            InboundRoute {
                                state: match route.state {
                                    InboundState::PendingSelection { cm_id, reservation } =>
                                    InboundState::PendingSelection {
                                        cm_id,
                                        reservation: reservation.quarantined(),
                                    },
                                    other => other,
                                },
                                ..route
                            },
                        ),
                        Route::Unrouted => Route::Unrouted,
                    },
                    ..self
                },
            },
        }
    }

    /// The entry after its whole bundle was quarantined.
    pub open spec fn bundle_quarantined(self) -> ConnectionEntry {
        if self.quarantine == Some(true) || (self.quarantine is None && self.lifecycle is Retired) {
            self
        } else {
            ConnectionEntry { quarantine: Some(true), ..self.admission_quarantined() }
        }
    }

    pub fn phase(&self) -> (phase: ConnectionPhase)
        ensures
            phase == if self.quarantine is Some {
                ConnectionPhase::Quarantined
            } else {
                match self.lifecycle {
                    Lifecycle::Outbound => ConnectionPhase::Outbound,
                    Lifecycle::Inbound => ConnectionPhase::Inbound,
                    Lifecycle::Active => ConnectionPhase::Active,
                    Lifecycle::Draining => ConnectionPhase::Draining,
                    Lifecycle::Retiring { .. } => ConnectionPhase::Retiring,
                    Lifecycle::Retired => ConnectionPhase::Retired,
                }
            },
    {
        if self.quarantine.is_some() {
            return ConnectionPhase::Quarantined;
        }
        match self.lifecycle {
            Lifecycle::Outbound => ConnectionPhase::Outbound,
            Lifecycle::Inbound => ConnectionPhase::Inbound,
            Lifecycle::Active => ConnectionPhase::Active,
            Lifecycle::Draining => ConnectionPhase::Draining,
            Lifecycle::Retiring { .. } => ConnectionPhase::Retiring,
            Lifecycle::Retired => ConnectionPhase::Retired,
        }
    }

    pub fn reservation(&self) -> (reservation: Option<&ConnectionReservation>)
        ensures
            match reservation {
                Some(value) => self.admitted() == Some(*value),
                None => self.admitted() is None,
            },
    {
        match &self.connection {
            Some(connection) => connection.admission.as_ref(),
            None => match &self.setup {
                Some(owner) => Some(&owner.reservation),
                None => match &self.route {
                    Route::Outbound(route) => match &route.state {
                        OutboundState::AwaitAddr { reservation, .. }
                        | OutboundState::AwaitRoute { reservation, .. } => Some(reservation),
                        _ => None,
                    },
                    Route::Inbound(route) => match &route.state {
                        InboundState::PendingSelection { reservation, .. } => Some(reservation),
                        _ => None,
                    },
                    Route::Unrouted => None,
                },
            },
        }
    }

    fn quarantine_admission(&mut self)
        ensures
            *final(self) == old(self).admission_quarantined(),
    {
        match &mut self.connection {
            Some(connection) => connection.mark_reservation_quarantined(),
            None => match &mut self.setup {
                Some(owner) => {
                    let _ = owner.reservation.retain_setup_quarantine();
                },
                None => match &mut self.route {
                    Route::Outbound(route) => match &mut route.state {
                        OutboundState::AwaitAddr { reservation, .. } => {
                            let _ = reservation.retain_setup_quarantine();
                        },
                        OutboundState::AwaitRoute { reservation, .. } => {
                            let _ = reservation.retain_setup_quarantine();
                        },
                        _ => {},
                    },
                    Route::Inbound(route) => match &mut route.state {
                        InboundState::PendingSelection { reservation, .. } => {
                            let _ = reservation.retain_setup_quarantine();
                        },
                        _ => {},
                    },
                    Route::Unrouted => {},
                },
            },
        }
    }
}

/// The entries that go into a count.
pub open spec fn bundles_in(
    entries: Map<SlotToken, ConnectionEntry>,
    count: BundleCount,
) -> Set<SlotToken> {
    entries.dom().filter(|token: SlotToken| counts_in(entries[token].marked(), count))
}

/// Whether `counts` are the counts of these entries; how many are live they leave open.
#[verifier::opaque]
pub open spec fn counts_exact(
    counts: ConnectionStateCountSnapshot,
    entries: Map<SlotToken, ConnectionEntry>,
) -> bool {
    forall|count: BundleCount| #[trigger] counts.of(count) == bundles_in(entries, count).len()
}

/// An entry that goes into a count is counted there, and no count exceeds the entries.
proof fn counted_entries_show(
    counts: ConnectionStateCountSnapshot,
    entries: Map<SlotToken, ConnectionEntry>,
    token: SlotToken,
)
    requires
        entries.dom().finite(),
        entries.contains_key(token),
        counts_exact(counts, entries),
    ensures
        forall|count: BundleCount|
            counts_in(entries[token].marked(), count) ==> #[trigger] counts.of(count) > 0,
        forall|count: BundleCount|
            !counts_in(entries[token].marked(), count) ==> #[trigger] counts.of(count)
                < entries.dom().len(),
{
    reveal(counts_exact);
    assert forall|count: BundleCount|
        counts_in(entries[token].marked(), count) implies #[trigger] counts.of(count) > 0 by {
        let counted = bundles_in(entries, count);
        assert(counted.contains(token));
        assert(counted.finite());
        if counted.len() == 0 {
            assert(counted =~= Set::empty());
        }
    }
    assert forall|count: BundleCount|
        !counts_in(entries[token].marked(), count) implies #[trigger] counts.of(count)
        < entries.dom().len() by {
        let counted = bundles_in(entries, count);
        assert(counted.subset_of(entries.dom().remove(token)));
        vstd::set_lib::lemma_len_subset(counted, entries.dom().remove(token));
    }
}

/// No count exceeds the entries.
proof fn counts_are_bounded(
    counts: ConnectionStateCountSnapshot,
    entries: Map<SlotToken, ConnectionEntry>,
)
    requires
        entries.dom().finite(),
        counts_exact(counts, entries),
    ensures
        forall|count: BundleCount| #[trigger] counts.of(count) <= entries.dom().len(),
{
    reveal(counts_exact);
    assert forall|count: BundleCount| #[trigger] counts.of(count) <= entries.dom().len() by {
        vstd::set_lib::lemma_len_subset(bundles_in(entries, count), entries.dom());
    }
}

/// Recounting the one entry that came or changed keeps the counts exact.
proof fn recounting_keeps_counts_exact(
    counts: ConnectionStateCountSnapshot,
    after: ConnectionStateCountSnapshot,
    entries: Map<SlotToken, ConnectionEntry>,
    token: SlotToken,
    entry: ConnectionEntry,
)
    requires
        entries.dom().finite(),
        counts_exact(counts, entries),
        counts.moved(
            after,
            if entries.contains_key(token) {
                entries[token].marked()
            } else {
                None
            },
            entry.marked(),
        ),
    ensures
        counts_exact(after, entries.insert(token, entry)),
{
    reveal(counts_exact);
    let changed = entries.insert(token, entry);
    assert forall|count: BundleCount| #[trigger]
        after.of(count) == bundles_in(changed, count).len() by {
        let earlier = bundles_in(entries, count);
        assert(earlier.finite());
        assert(counts.of(count) == earlier.len());
        if counts_in(entry.marked(), count) {
            assert(bundles_in(changed, count) =~= earlier.insert(token));
        } else {
            assert(bundles_in(changed, count) =~= earlier.remove(token));
        }
    }
}

/// No longer counting an entry that went keeps the counts exact.
proof fn withdrawing_keeps_counts_exact(
    counts: ConnectionStateCountSnapshot,
    after: ConnectionStateCountSnapshot,
    entries: Map<SlotToken, ConnectionEntry>,
    token: SlotToken,
)
    requires
        entries.dom().finite(),
        entries.contains_key(token),
        counts_exact(counts, entries),
        counts.moved(after, entries[token].marked(), None),
    ensures
        counts_exact(after, entries.remove(token)),
{
    reveal(counts_exact);
    let left = entries.remove(token);
    assert forall|count: BundleCount| #[trigger]
        after.of(count) == bundles_in(left, count).len() by {
        let earlier = bundles_in(entries, count);
        assert(earlier.finite());
        assert(counts.of(count) == earlier.len());
        assert(bundles_in(left, count) =~= earlier.remove(token));
    }
}

/// The contents of a connection registry.
#[verifier::ext_equal]
pub struct RegistryView {
    pub slots: SlotsView<ConnectionEntry>,
    pub spent: nat,
    pub qp_index: Map<u32, ConnectionToken>,
    pub deadlines: Seq<DeadlineRequest>,
    pub pending_outbound: Seq<(RequestToken, ConnectionReservation)>,
    pub cancellations: Seq<RequestToken>,
    pub retirements: Seq<ConnectionToken>,
    pub setup_active: bool,
    /// The semaphore that connections are admitted by.
    pub admission: Semaphore,
}

impl RegistryView {
    /// A registry that nothing was asked of yet, with room for `capacity` connections
    /// that are admitted by `admission`.
    pub open spec fn idle(capacity: nat, admission: Semaphore) -> RegistryView {
        RegistryView {
            slots: SlotsView::unused(capacity),
            spent: 0,
            qp_index: Map::empty(),
            deadlines: Seq::empty(),
            pending_outbound: Seq::empty(),
            cancellations: Seq::empty(),
            retirements: Seq::empty(),
            setup_active: false,
            admission,
        }
    }

    pub open spec fn has(self, token: ConnectionToken) -> bool {
        self.slots.entries.contains_key(token)
    }

    pub open spec fn entry(self, token: ConnectionToken) -> ConnectionEntry {
        self.slots.entries[token]
    }

    /// Whether `token` names an entry that has a connection.
    pub open spec fn connected(self, token: ConnectionToken) -> bool {
        self.has(token) && self.entry(token).connection is Some
    }

    pub open spec fn connection(self, token: ConnectionToken) -> ConnectionState {
        self.entry(token).connection->0
    }

    pub open spec fn set(self, token: ConnectionToken, entry: ConnectionEntry) -> RegistryView {
        RegistryView { slots: self.slots.set(token, entry), ..self }
    }

    pub open spec fn set_connection(
        self,
        token: ConnectionToken,
        connection: ConnectionState,
    ) -> RegistryView {
        self.set(
            token,
            ConnectionEntry { connection: Some(connection), ..self.entry(token) },
        )
    }

    pub open spec fn outbound(self, token: ConnectionToken) -> bool {
        self.has(token) && self.entry(token).route is Outbound
    }

    pub open spec fn outbound_route(self, token: ConnectionToken) -> OutboundRoute {
        self.entry(token).route->Outbound_0
    }

    pub open spec fn inbound(self, token: ConnectionToken) -> bool {
        self.has(token) && self.entry(token).route is Inbound
    }

    pub open spec fn inbound_route(self, token: ConnectionToken) -> InboundRoute {
        self.entry(token).route->Inbound_0
    }

    pub open spec fn set_outbound(
        self,
        token: ConnectionToken,
        route: OutboundRoute,
    ) -> RegistryView {
        self.set(token, ConnectionEntry { route: Route::Outbound(route), ..self.entry(token) })
    }

    pub open spec fn set_outbound_state(
        self,
        token: ConnectionToken,
        state: OutboundState,
    ) -> RegistryView {
        self.set_outbound(token, OutboundRoute { state, ..self.outbound_route(token) })
    }

    pub open spec fn set_inbound(self, token: ConnectionToken, route: InboundRoute) -> RegistryView {
        self.set(token, ConnectionEntry { route: Route::Inbound(route), ..self.entry(token) })
    }

    pub open spec fn set_inbound_state(
        self,
        token: ConnectionToken,
        state: InboundState,
    ) -> RegistryView {
        self.set_inbound(token, InboundRoute { state, ..self.inbound_route(token) })
    }

    /// The tokens of the entries that have a route.
    pub open spec fn routed(self) -> Set<SlotToken> {
        self.slots.entries.dom().filter(
            |token: SlotToken| self.slots.entries[token].has_route(),
        )
    }

    /// Whether every number in the queue-pair index leads to the one entry that has it.
    pub open spec fn index_exact(self) -> bool {
        forall|qp_num: u32| #[trigger]
            self.qp_index.contains_key(qp_num) ==> {
                &&& self.connected(self.qp_index[qp_num])
                &&& self.connection(self.qp_index[qp_num]).qp_num == qp_num
            }
    }
}

/// What a lookup shows of a connection.
#[derive(Clone, Copy, Debug, PartialEq, Eq, Structural)]
pub struct ConnectionSnapshot {
    pub qp_num: u32,
}

/// Evidence that a connection was the live owner of its queue-pair number.
#[derive(Debug)]
pub struct LiveIoConnectionProof {
    connection: ConnectionToken,
    qp_num: u32,
}

impl LiveIoConnectionProof {
    pub closed spec fn token(self) -> ConnectionToken {
        self.connection
    }

    pub closed spec fn queue_pair(self) -> u32 {
        self.qp_num
    }

    pub fn proves(&self, connection: ConnectionToken, qp_num: u32) -> (proven: bool)
        ensures
            proven == (self.token() == connection && self.queue_pair() == qp_num),
    {
        self.connection == connection && self.qp_num == qp_num
    }
}

pub struct ConnectionRegistry {
    slots: SlotRegistry<ConnectionEntry>,
    qp_index: HashMap<u32, ConnectionToken>,
    capacity: usize,
    admission: Arc<Semaphore>,
    deadline_requests: VecDeque<DeadlineRequest>,
    pending_outbound: VecDeque<(RequestToken, ConnectionReservation)>,
    cancellations: VecDeque<RequestToken>,
    retirements: VecDeque<ConnectionToken>,
    outbound_setup_active: bool,
    route_count: usize,
    counts: ConnectionStateCountSnapshot,
}

impl ConnectionRegistry {
    pub closed spec fn view(&self) -> RegistryView {
        RegistryView {
            slots: self.slots@,
            spent: self.slots.spent(),
            qp_index: self.qp_index@,
            deadlines: self.deadline_requests@,
            pending_outbound: self.pending_outbound@,
            cancellations: self.cancellations@,
            retirements: self.retirements@,
            setup_active: self.outbound_setup_active,
            admission: *self.admission,
        }
    }

    pub closed spec fn wf(&self) -> bool {
        &&& self.slots.wf()
        &&& self.slots@.capacity == self.capacity
        &&& forall|token: SlotToken| #[trigger]
            self.slots@.entries.contains_key(token) ==> self.slots@.entries[token].wf()
        &&& self@.routed().finite()
        &&& self.route_count == self@.routed().len()
        &&& counts_exact(self.counts, self.slots@.entries)
    }

    /// A registry for at most `capacity` connections with an admission of its own.
    pub fn new(capacity: u32) -> (registry: Self)
        requires
            capacity <= MAX_PERMITS,
        ensures
            registry.wf(),
            registry@ == RegistryView::idle(capacity as nat, registry@.admission),
            permits_made(registry@.admission) == capacity,
    {
        Self::new_with_admission(capacity, new_semaphore(capacity as usize))
    }

    /// A registry for at most `capacity` connections that share an admission.
    pub fn new_with_admission(capacity: u32, admission: Arc<Semaphore>) -> (registry: Self)
        ensures
            registry.wf(),
            registry@ == RegistryView::idle(capacity as nat, *admission),
    {
        let registry = ConnectionRegistry {
            slots: SlotRegistry::new(capacity),
            qp_index: HashMap::new(),
            capacity: capacity as usize,
            admission,
            deadline_requests: VecDeque::new(),
            pending_outbound: VecDeque::new(),
            cancellations: VecDeque::new(),
            retirements: VecDeque::new(),
            outbound_setup_active: false,
            route_count: 0,
            counts: ConnectionStateCountSnapshot::default(),
        };
        assert(registry@.routed() =~= Set::<SlotToken>::empty());
        proof {
            reveal(counts_exact);
            assert forall|count: BundleCount| #[trigger]
                registry.counts.of(count) == bundles_in(registry.slots@.entries, count).len() by {
                assert(bundles_in(registry.slots@.entries, count) =~= Set::empty());
            }
        }
        registry
    }

    /// The connection under `token`.
    pub fn connection(&self, token: ConnectionToken) -> (found: Option<&ConnectionState>)
        requires
            self.wf(),
        ensures
            match found {
                Some(connection) => self@.connected(token) && *connection == self@.connection(
                    token,
                ),
                None => !self@.connected(token),
            },
    {
        match self.slots.get(token) {
            Some(entry) => entry.connection.as_ref(),
            None => None,
        }
    }

    proof fn changing_an_entry(before: Self, after: Self, token: ConnectionToken)
        requires
            before.wf(),
            before@.has(token),
            after.slots.wf(),
            after.slots@ == before.slots@.set(token, after.slots@.entries[token]),
            after.slots.spent() == before.slots.spent(),
            after.slots@.entries[token].wf(),
            after.slots@.entries[token].has_route() == before.slots@.entries[token].has_route(),
            after.capacity == before.capacity,
            after.route_count == before.route_count,
            counts_exact(after.counts, after.slots@.entries),
        ensures
            after.wf(),
    {
        assert(after@.routed() =~= before@.routed());
    }

    proof fn keeping_a_mark(before: Self, after: Self, token: ConnectionToken)
        requires
            before.wf(),
            before@.has(token),
            after.slots@ == before.slots@.set(token, after.slots@.entries[token]),
            after.slots@.entries[token].marked() == before.slots@.entries[token].marked(),
            after.counts == before.counts,
        ensures
            counts_exact(after.counts, after.slots@.entries),
    {
        before.slots.entries_are_found();
        recounting_keeps_counts_exact(
            before.counts,
            after.counts,
            before.slots@.entries,
            token,
            after.slots@.entries[token],
        );
    }

    proof fn reaching_an_entry(before: Self, after: Self, token: ConnectionToken)
        requires
            before.wf(),
            before@.has(token),
            after.slots.wf(),
            after.slots@ == before.slots@.set(token, after.slots@.entries[token]),
            after.slots.spent() == before.slots.spent(),
            after.slots@.entries[token].wf(),
            after.slots@.entries[token].has_route() == before.slots@.entries[token].has_route(),
            after.capacity == before.capacity,
            after.route_count == before.route_count,
            after.counts == before.counts,
        ensures
            after.slots@.entries[token].marked() == before.slots@.entries[token].marked()
                ==> after.wf(),
    {
        if after.slots@.entries[token].marked() == before.slots@.entries[token].marked() {
            Self::keeping_a_mark(before, after, token);
            Self::changing_an_entry(before, after, token);
        }
    }

    /// What the entry under `token` is counted by.
    fn mark_of(&self, token: ConnectionToken) -> (mark: Option<BundleMark>)
        requires
            self.slots.wf(),
            self.slots@.entries.contains_key(token),
        ensures
            mark == self.slots@.entries[token].marked(),
    {
        match self.slots.get(token) {
            Some(entry) => entry.mark(),
            None => None,
        }
    }

    /// Counts an entry anew that has changed; `earlier` is what it was counted by.
    fn settle(
        &mut self,
        token: ConnectionToken,
        earlier: Option<BundleMark>,
        before: Ghost<ConnectionRegistry>,
    )
        requires
            before@.wf(),
            before@@.has(token),
            earlier == before@.slots@.entries[token].marked(),
            old(self).slots.wf(),
            old(self).slots@ == before@.slots@.set(token, old(self).slots@.entries[token]),
            old(self).slots.spent() == before@.slots.spent(),
            old(self).slots@.entries[token].wf(),
            old(self).slots@.entries[token].has_route()
                == before@.slots@.entries[token].has_route(),
            old(self).capacity == before@.capacity,
            old(self).route_count == before@.route_count,
            old(self).counts == before@.counts,
        ensures
            final(self).wf(),
            *final(self) == (ConnectionRegistry { counts: final(self).counts, ..*old(self) }),
    {
        let later = self.mark_of(token);
        proof {
            before@.slots.entries_are_found();
            counted_entries_show(before@.counts, before@.slots@.entries, token);
        }
        self.counts.recount(earlier, later);
        proof {
            recounting_keeps_counts_exact(
                before@.counts,
                self.counts,
                before@.slots@.entries,
                token,
                self.slots@.entries[token],
            );
            Self::changing_an_entry(before@, *self, token);
        }
    }

    /// Mutable access to the connection under `token`. What it is counted by has to
    /// stay: the methods of the registry that change it keep the counts.
    pub fn connection_mut(&mut self, token: ConnectionToken) -> (found: Option<
        &mut ConnectionState,
    >)
        requires
            old(self).wf(),
        ensures
            match found {
                Some(connection) => {
                    &&& old(self)@.connected(token)
                    &&& *connection == old(self)@.connection(token)
                    &&& final(connection).marked() == connection.marked() ==> final(self).wf()
                    &&& final(self)@ == old(self)@.set_connection(token, *final(connection))
                },
                None => !old(self)@.connected(token) && *final(self) == *old(self),
            },
    {
        if self.connection(token).is_none() {
            return None;
        }
        match self.slots.get_mut(token) {
            Some(entry) => match &mut entry.connection {
                Some(connection) => {
                    proof {
                        Self::reaching_an_entry(*old(self), after_borrow(*self), token);
                    }
                    Some(connection)
                },
                None => None,
            },
            None => None,
        }
    }

    proof fn adding_an_entry(before: Self, after: Self, token: ConnectionToken)
        requires
            before.wf(),
            !before@.has(token),
            after.slots.wf(),
            after.slots@ == before.slots@.added(token, after.slots@.entries[token]),
            after.slots@.entries[token].wf(),
            after.capacity == before.capacity,
            after.route_count == before.route_count + if after.slots@.entries[token].has_route() {
                1int
            } else {
                0
            },
            before.counts.moved(after.counts, None, after.slots@.entries[token].marked()),
        ensures
            after.wf(),
    {
        if after.slots@.entries[token].has_route() {
            assert(after@.routed() =~= before@.routed().insert(token));
        } else {
            assert(after@.routed() =~= before@.routed());
        }
        before.slots.entries_are_found();
        recounting_keeps_counts_exact(
            before.counts,
            after.counts,
            before.slots@.entries,
            token,
            after.slots@.entries[token],
        );
    }

    proof fn routes_are_bounded(&self)
        requires
            self.wf(),
        ensures
            self.route_count <= self@.slots.entries.dom().len(),
            self@.slots.entries.dom().len() + self@.spent <= self@.slots.capacity <= u32::MAX,
            forall|count: BundleCount| #[trigger]
                self.counts.of(count) <= self@.slots.entries.dom().len(),
    {
        self.slots.entries_are_found();
        counts_are_bounded(self.counts, self.slots@.entries);
        vstd::set_lib::lemma_len_subset(self@.routed(), self@.slots.entries.dom());
    }

    /// The registry has no more slots than its capacity, which 32 bits count.
    pub proof fn slots_are_few(&self)
        requires
            self.wf(),
        ensures
            self@.slots.marks.len() <= self@.slots.capacity <= u32::MAX,
            self@.slots.tabled(),
    {
        self.slots.entries_are_found();
    }

    /// Opens an outbound route, unless the registry is full.
    pub fn register_outbound(&mut self) -> (result: Result<ConnectionToken, Error>)
        requires
            old(self).wf(),
        ensures
            final(self).wf(),
            result is Ok <==> old(self)@.slots.entries.dom().len() + old(self)@.spent
                < old(self)@.slots.capacity,
            match result {
                Ok(token) => {
                    &&& old(self)@.slots.may_issue(token)
                    &&& final(self)@ == (RegistryView {
                        slots: old(self)@.slots.added(
                            token,
                            ConnectionEntry {
                                lifecycle: Lifecycle::Outbound,
                                quarantine: None,
                                route: Route::Outbound(
                                    OutboundRoute {
                                        raw_id: 0,
                                        context_key: 0,
                                        state: OutboundState::Transitioning,
                                    },
                                ),
                                connection: None,
                                setup: None,
                            },
                        ),
                        ..old(self)@
                    })
                },
                Err(error) => error == Error::CapacityExhausted && *final(self) == *old(self),
            },
    {
        proof {
            self.routes_are_bounded();
        }
        let entry = ConnectionEntry {
            lifecycle: Lifecycle::Outbound,
            quarantine: None,
            route: Route::Outbound(OutboundRoute::new()),
            connection: None,
            setup: None,
        };
        let mark = entry.mark();
        match self.slots.allocate(entry) {
            Ok(token) => {
                self.route_count = self.route_count + 1;
                self.counts.recount(None, mark);
                proof {
                    Self::adding_an_entry(*old(self), *self, token);
                }
                Ok(token)
            },
            Err(_) => Err(Error::CapacityExhausted),
        }
    }

    /// Opens an inbound route in the given state, unless the registry is full.
    pub fn register_inbound(&mut self, route: InboundRoute) -> (result: Result<
        ConnectionToken,
        InboundRoute,
    >)
        requires
            old(self).wf(),
        ensures
            final(self).wf(),
            result is Ok <==> old(self)@.slots.entries.dom().len() + old(self)@.spent
                < old(self)@.slots.capacity,
            match result {
                Ok(token) => {
                    &&& old(self)@.slots.may_issue(token)
                    &&& final(self)@ == (RegistryView {
                        slots: old(self)@.slots.added(
                            token,
                            ConnectionEntry {
                                lifecycle: Lifecycle::Inbound,
                                quarantine: None,
                                route: Route::Inbound(route),
                                connection: None,
                                setup: None,
                            },
                        ),
                        ..old(self)@
                    })
                },
                Err(refused) => refused == route && *final(self) == *old(self),
            },
    {
        proof {
            self.routes_are_bounded();
        }
        let entry = ConnectionEntry {
            lifecycle: Lifecycle::Inbound,
            quarantine: None,
            route: Route::Inbound(route),
            connection: None,
            setup: None,
        };
        let mark = entry.mark();
        match self.slots.allocate(entry) {
            Ok(token) => {
                self.route_count = self.route_count + 1;
                self.counts.recount(None, mark);
                proof {
                    Self::adding_an_entry(*old(self), *self, token);
                }
                Ok(token)
            },
            Err(entry) => match entry.route {
                Route::Inbound(route) => Err(route),
                _ => Err(InboundRoute::new(SlotToken { slot: 0, generation: 0 })),
            },
        }
    }

    /// Why a queue-pair number cannot be registered.
    pub open spec fn qp_refusal(view: RegistryView, qp_num: u32) -> Option<Seq<char>> {
        if qp_num == 0 {
            Some("provider returned zero qp_num"@)
        } else if view.qp_index.contains_key(qp_num) {
            Some("qp_num "@ + decimal(qp_num as nat) + " is already registered"@)
        } else {
            None
        }
    }

    /// Fails for a queue-pair number that is zero or has an owner.
    pub fn validate_qp_registration(&self, qp_num: u32) -> (result: Result<(), Error>)
        requires
            self.wf(),
        ensures
            match Self::qp_refusal(self@, qp_num) {
                Some(text) => result matches Err(error) && error.is_invalid_config(text),
                None => result is Ok,
            },
    {
        broadcast use vstd::std_specs::hash::group_hash_axioms;

        if qp_num == 0 {
            return Err(Error::invalid("provider returned zero qp_num"));
        }
        if self.qp_index.contains_key(&qp_num) {
            let mut text: String = String::new();
            text.append("qp_num ");
            append_decimal(&mut text, qp_num as u64);
            text.append(" is already registered");
            assert(text@ =~= "qp_num "@ + decimal(qp_num as nat) + " is already registered"@);
            return Err(Error::InvalidConfig(text));
        }
        Ok(())
    }

    /// Registers an established connection that has no route.
    ///
    /// On failure the resources come back.
    pub fn register(
        &mut self,
        poster: ConnectionPoster,
        local_addr: Option<String>,
        peer_addr: Option<String>,
        reservation: Option<ConnectionReservation>,
    ) -> (result: Result<
        ConnectionToken,
        (Error, ConnectionPoster, Option<ConnectionReservation>),
    >)
        requires
            old(self).wf(),
        ensures
            final(self).wf(),
            result is Ok <==> Self::qp_refusal(old(self)@, poster.queue_pair()) is None
                && old(self)@.slots.entries.dom().len() + old(self)@.spent
                < old(self)@.slots.capacity,
            match result {
                Ok(token) => {
                    let entry = final(self)@.entry(token);
                    &&& old(self)@.slots.may_issue(token)
                    &&& entry.is_live(Lifecycle::Active)
                    &&& entry.route is Unrouted
                    &&& entry.setup is None
                    &&& entry.connection is Some
                    &&& entry.connection->0.is_fresh(
                        token,
                        poster,
                        local_addr,
                        peer_addr,
                        reservation,
                    )
                    &&& final(self)@ == (RegistryView {
                        slots: old(self)@.slots.added(token, entry),
                        qp_index: old(self)@.qp_index.insert(poster.queue_pair(), token),
                        ..old(self)@
                    })
                },
                Err((error, refused, returned)) => {
                    &&& *final(self) == *old(self)
                    &&& refused == poster
                    &&& returned == reservation
                    &&& match Self::qp_refusal(old(self)@, poster.queue_pair()) {
                        Some(text) => error.is_invalid_config(text),
                        None => error == Error::CapacityExhausted,
                    }
                },
            },
    {
        broadcast use vstd::std_specs::hash::group_hash_axioms;

        let qp_num: u32 = poster.qp_num();
        if let Err(error) = self.validate_qp_registration(qp_num) {
            return Err((error, poster, reservation));
        }
        let token = match self.slots.next_token() {
            Some(token) => token,
            None => {
                return Err((Error::CapacityExhausted, poster, reservation));
            },
        };
        let entry = ConnectionEntry {
            lifecycle: Lifecycle::Active,
            quarantine: None,
            route: Route::Unrouted,
            connection: Some(ConnectionState::new(token, poster, local_addr, peer_addr, reservation)),
            setup: None,
        };
        let mark = entry.mark();
        proof {
            self.routes_are_bounded();
        }
        let _ = self.slots.allocate(entry);
        self.qp_index.insert(qp_num, token);
        self.counts.recount(None, mark);
        proof {
            Self::adding_an_entry(*old(self), *self, token);
        }
        Ok(token)
    }

    /// Why a connection cannot be attached to a route.
    pub open spec fn attach_refusal(
        view: RegistryView,
        token: ConnectionToken,
        qp_num: u32,
    ) -> Option<Seq<char>> {
        match Self::qp_refusal(view, qp_num) {
            Some(text) => Some(text),
            None => if !view.has(token) {
                Some("connection route generation disappeared before QP registration"@)
            } else if !view.entry(token).is_establishing() {
                Some("connection route registered more than one QP owner"@)
            } else {
                None
            },
        }
    }

    /// Attaches a connection to the route that it was set up for.
    ///
    /// On failure the connection comes back.
    pub fn attach_registered(&mut self, token: ConnectionToken, connection: ConnectionState) -> (result:
        Result<(), (Error, ConnectionState)>)
        requires
            old(self).wf(),
        ensures
            final(self).wf(),
            match Self::attach_refusal(old(self)@, token, connection.qp_num) {
                Some(text) => {
                    &&& *final(self) == *old(self)
                    &&& result matches Err((error, retained)) && error.is_invalid_config(text)
                        && retained == connection
                },
                None => {
                    &&& result is Ok
                    &&& final(self)@ == (RegistryView {
                        qp_index: old(self)@.qp_index.insert(connection.qp_num, token),
                        ..old(self)@.set_connection(token, connection)
                    })
                },
            },
    {
        broadcast use vstd::std_specs::hash::group_hash_axioms;

        let qp_num: u32 = connection.qp_num;
        if let Err(error) = self.validate_qp_registration(qp_num) {
            return Err((error, connection));
        }
        match self.slots.get(token) {
            None => {
                return Err(
                    (
                        Error::invalid(
                            "connection route generation disappeared before QP registration",
                        ),
                        connection,
                    ),
                );
            },
            Some(entry) => {
                if entry.quarantine.is_some() || entry.connection.is_some() {
                    return Err(
                        (
                            Error::invalid("connection route registered more than one QP owner"),
                            connection,
                        ),
                    );
                }
            },
        }
        let earlier = self.mark_of(token);
        if let Some(entry) = self.slots.get_mut(token) {
            entry.connection = Some(connection);
        }
        self.qp_index.insert(qp_num, token);
        self.settle(token, earlier, Ghost(*old(self)));
        Ok(())
    }

    /// Marks a registered connection as established.
    pub fn mark_active(&mut self, token: ConnectionToken) -> (changed: bool)
        requires
            old(self).wf(),
        ensures
            final(self).wf(),
            changed == (old(self)@.has(token) && old(self)@.entry(token).is_registered()),
            final(self)@ == if changed {
                old(self)@.set(
                    token,
                    ConnectionEntry { lifecycle: Lifecycle::Active, ..old(self)@.entry(token) },
                )
            } else {
                old(self)@
            },
    {
        let ready: bool = match self.slots.get(token) {
            Some(entry) => entry.quarantine.is_none() && entry.connection.is_some()
                && match entry.lifecycle {
                Lifecycle::Outbound | Lifecycle::Inbound => true,
                _ => false,
            },
            None => false,
        };
        if !ready {
            return false;
        }
        let earlier = self.mark_of(token);
        if let Some(entry) = self.slots.get_mut(token) {
            entry.lifecycle = Lifecycle::Active;
        }
        self.settle(token, earlier, Ghost(*old(self)));
        true
    }

    /// Whether an entry can begin its close.
    pub open spec fn closable(entry: ConnectionEntry) -> bool {
        entry.is_live(Lifecycle::Active) || entry.is_registered()
    }

    /// The entry once its close began.
    pub open spec fn closed(entry: ConnectionEntry) -> ConnectionEntry {
        ConnectionEntry {
            lifecycle: Lifecycle::Draining,
            connection: Some(entry.connection->0.closing()),
            ..entry
        }
    }

    /// Begins the close of an established or registered connection.
    pub fn begin_close(&mut self, token: ConnectionToken) -> (first: bool)
        requires
            old(self).wf(),
        ensures
            final(self).wf(),
            first == (old(self)@.has(token) && Self::closable(old(self)@.entry(token))),
            final(self)@ == if first {
                old(self)@.set(token, Self::closed(old(self)@.entry(token)))
            } else {
                old(self)@
            },
    {
        let ready: bool = match self.slots.get(token) {
            Some(entry) => entry.quarantine.is_none() && match entry.lifecycle {
                Lifecycle::Active => true,
                Lifecycle::Outbound | Lifecycle::Inbound => entry.connection.is_some(),
                _ => false,
            },
            None => false,
        };
        if !ready {
            return false;
        }
        let earlier = self.mark_of(token);
        if let Some(entry) = self.slots.get_mut(token) {
            if let Some(connection) = &mut entry.connection {
                connection.begin_close();
            }
            entry.lifecycle = Lifecycle::Draining;
        }
        self.settle(token, earlier, Ghost(*old(self)));
        true
    }

    /// Quarantines a connection whose close the provider did not take up.
    pub fn fail_close_into_quarantine(&mut self, token: ConnectionToken) -> (changed: bool)
        requires
            old(self).wf(),
        ensures
            final(self).wf(),
            changed == (old(self)@.has(token) && old(self)@.entry(token).is_live(
                Lifecycle::Draining,
            )),
            final(self)@ == if changed {
                old(self)@.set(token, Self::close_failed(old(self)@.entry(token)))
            } else {
                old(self)@
            },
    {
        let ready: bool = match self.slots.get(token) {
            Some(entry) => entry.quarantine.is_none() && entry.lifecycle == Lifecycle::Draining,
            None => false,
        };
        if !ready {
            return false;
        }
        let earlier = self.mark_of(token);
        if let Some(entry) = self.slots.get_mut(token) {
            if let Some(connection) = &mut entry.connection {
                connection.rollback_draining_count();
                connection.mark_reservation_quarantined();
            }
            entry.quarantine = Some(true);
        }
        self.settle(token, earlier, Ghost(*old(self)));
        true
    }

    /// The entry once its close failed.
    pub open spec fn close_failed(entry: ConnectionEntry) -> ConnectionEntry {
        let connection = entry.connection->0;
        let rolled_back = ConnectionState {
            admission: match connection.admission {
                Some(reservation) => Some(
                    ConnectionReservation { state: reservation.state.rolled_back(), ..reservation },
                ),
                None => None,
            },
            ..connection
        };
        ConnectionEntry {
            quarantine: Some(true),
            connection: Some(rolled_back.reservation_quarantined()),
            ..entry
        }
    }

    /// Whether an entry can be handed to retirement.
    pub open spec fn retirable(entry: ConnectionEntry) -> bool {
        entry.is_live(Lifecycle::Draining) && entry.connection->0.error_transition_complete
    }

    /// Queues a draining connection for retirement, once its queue pair is in the error state.
    pub fn request_retirement(&mut self, token: ConnectionToken) -> (requested: bool)
        requires
            old(self).wf(),
        ensures
            final(self).wf(),
            requested == (old(self)@.has(token) && Self::retirable(old(self)@.entry(token))),
            final(self)@ == if requested {
                RegistryView {
                    retirements: old(self)@.retirements.push(token),
                    ..old(self)@.set(
                        token,
                        ConnectionEntry {
                            lifecycle: Lifecycle::Retiring { started: false },
                            ..old(self)@.entry(token)
                        },
                    )
                }
            } else {
                old(self)@
            },
    {
        let ready: bool = match self.slots.get(token) {
            Some(entry) => entry.quarantine.is_none() && entry.lifecycle == Lifecycle::Draining
                && match &entry.connection {
                Some(connection) => connection.error_transition_complete,
                None => false,
            },
            None => false,
        };
        if !ready {
            return false;
        }
        let earlier = self.mark_of(token);
        if let Some(entry) = self.slots.get_mut(token) {
            entry.lifecycle = Lifecycle::Retiring { started: false };
        }
        self.retirements.push_back(token);
        self.settle(token, earlier, Ghost(*old(self)));
        true
    }

    /// Starts a queued retirement.
    pub fn begin_retirement(&mut self, token: ConnectionToken) -> (started: bool)
        requires
            old(self).wf(),
        ensures
            final(self).wf(),
            started == (old(self)@.has(token) && old(self)@.entry(token).is_live(
                Lifecycle::Retiring { started: false },
            )),
            final(self)@ == if started {
                old(self)@.set(
                    token,
                    ConnectionEntry {
                        lifecycle: Lifecycle::Retiring { started: true },
                        ..old(self)@.entry(token)
                    },
                )
            } else {
                old(self)@
            },
    {
        let ready: bool = match self.slots.get(token) {
            Some(entry) => entry.quarantine.is_none() && entry.lifecycle == (Lifecycle::Retiring {
                started: false,
            }),
            None => false,
        };
        if !ready {
            return false;
        }
        let earlier = self.mark_of(token);
        if let Some(entry) = self.slots.get_mut(token) {
            entry.lifecycle = Lifecycle::Retiring { started: true };
        }
        self.settle(token, earlier, Ghost(*old(self)));
        true
    }

    /// Queues a retirement again from its start.
    pub fn retry_retirement(&mut self, token: ConnectionToken)
        requires
            old(self).wf(),
        ensures
            final(self).wf(),
            final(self)@ == if old(self)@.has(token) && old(self)@.entry(token).quarantine is None
                && old(self)@.entry(token).lifecycle is Retiring {
                RegistryView {
                    retirements: old(self)@.retirements.push(token),
                    ..old(self)@.set(
                        token,
                        ConnectionEntry {
                            lifecycle: Lifecycle::Retiring { started: false },
                            ..old(self)@.entry(token)
                        },
                    )
                }
            } else {
                old(self)@
            },
    {
        let ready: bool = match self.slots.get(token) {
            Some(entry) => entry.quarantine.is_none() && match entry.lifecycle {
                Lifecycle::Retiring { .. } => true,
                _ => false,
            },
            None => false,
        };
        if !ready {
            return;
        }
        let earlier = self.mark_of(token);
        if let Some(entry) = self.slots.get_mut(token) {
            entry.lifecycle = Lifecycle::Retiring { started: false };
        }
        self.retirements.push_back(token);
        self.settle(token, earlier, Ghost(*old(self)));
    }

    pub fn retirement_is_quarantined(&self, token: ConnectionToken) -> (held: bool)
        requires
            self.wf(),
        ensures
            held == (self@.has(token) && self@.entry(token).quarantine == Some(true)
                && self@.entry(token).lifecycle is Retiring),
    {
        match self.slots.get(token) {
            Some(entry) => match (entry.quarantine, entry.lifecycle) {
                (Some(true), Lifecycle::Retiring { .. }) => true,
                _ => false,
            },
            None => false,
        }
    }

    /// Quarantines the whole bundle under `token`; true when it was not before.
    pub fn track_bundle_quarantine(&mut self, token: ConnectionToken) -> (first: bool)
        requires
            old(self).wf(),
        ensures
            final(self).wf(),
            first == (old(self)@.has(token) && old(self)@.entry(token).quarantine != Some(true)
                && !old(self)@.entry(token).is_live(Lifecycle::Retired)),
            final(self)@ == if first {
                old(self)@.set(token, old(self)@.entry(token).bundle_quarantined())
            } else {
                old(self)@
            },
    {
        let ready: bool = match self.slots.get(token) {
            Some(entry) => match entry.quarantine {
                Some(bundle) => !bundle,
                None => entry.lifecycle != Lifecycle::Retired,
            },
            None => false,
        };
        if !ready {
            return false;
        }
        let earlier = self.mark_of(token);
        if let Some(entry) = self.slots.get_mut(token) {
            entry.quarantine_admission();
            entry.quarantine = Some(true);
        }
        self.settle(token, earlier, Ghost(*old(self)));
        true
    }

    /// Whether `after` is the entry once `operation` was quarantined. An entry that
    /// was not quarantined becomes so, even where it has no connection to mark.
    pub open spec fn operation_quarantined(
        entry: ConnectionEntry,
        after: ConnectionEntry,
        operation: OperationToken,
    ) -> bool {
        &&& after == (ConnectionEntry {
            quarantine: if entry.quarantine is Some {
                entry.quarantine
            } else {
                Some(false)
            },
            connection: after.connection,
            ..entry
        })
        &&& match entry.connection {
            Some(connection) => {
                &&& after.connection is Some
                &&& after.connection->0 == (ConnectionState {
                    io_ledger: after.connection->0.io_ledger,
                    ..connection
                })
                &&& connection.io_ledger.with_quarantined(
                    after.connection->0.io_ledger,
                    operation,
                )
            },
            None => after.connection is None,
        }
    }

    /// Quarantines one operation of a connection; true when it was not before.
    pub fn track_operation_quarantine(
        &mut self,
        token: ConnectionToken,
        operation: OperationToken,
    ) -> (first: bool)
        requires
            old(self).wf(),
        ensures
            final(self).wf(),
            first == (old(self)@.connected(token) && !old(self)@.entry(token).is_live(
                Lifecycle::Retired,
            ) && !old(self)@.connection(token).io_ledger.quarantined@.contains(operation)),
            if old(self)@.has(token) && !old(self)@.entry(token).is_live(Lifecycle::Retired) {
                &&& final(self)@ == old(self)@.set(token, final(self)@.entry(token))
                &&& Self::operation_quarantined(
                    old(self)@.entry(token),
                    final(self)@.entry(token),
                    operation,
                )
            } else {
                final(self)@ == old(self)@
            },
    {
        let ready: bool = match self.slots.get(token) {
            Some(entry) => entry.quarantine.is_some() || entry.lifecycle != Lifecycle::Retired,
            None => false,
        };
        if !ready {
            return false;
        }
        let mut first: bool = false;
        let earlier = self.mark_of(token);
        if let Some(entry) = self.slots.get_mut(token) {
            if entry.quarantine.is_none() {
                entry.quarantine = Some(false);
            }
            if let Some(connection) = &mut entry.connection {
                first = connection.io_ledger.mark_operation_quarantined(operation);
            }
        }
        self.settle(token, earlier, Ghost(*old(self)));
        first
    }

    /// Keeps the resources of a setup that could be neither completed nor undone.
    pub fn retain_setup_quarantine(
        &mut self,
        token: ConnectionToken,
        poster: ConnectionPoster,
        reservation: ConnectionReservation,
    ) -> (retained: bool)
        requires
            old(self).wf(),
        ensures
            final(self).wf(),
            retained == (old(self)@.has(token) && old(self)@.entry(token).is_establishing()),
            final(self)@ == if retained {
                old(self)@.set(
                    token,
                    ConnectionEntry {
                        quarantine: Some(true),
                        setup: Some(
                            SetupOwner { poster, reservation: reservation.quarantined() },
                        ),
                        ..old(self)@.entry(token)
                    },
                )
            } else {
                old(self)@
            },
    {
        let mut reservation = reservation;
        let _ = reservation.retain_setup_quarantine();
        let ready: bool = match self.slots.get(token) {
            Some(entry) => entry.quarantine.is_none() && entry.connection.is_none(),
            None => false,
        };
        if !ready {
            return false;
        }
        let earlier = self.mark_of(token);
        if let Some(entry) = self.slots.get_mut(token) {
            entry.setup = Some(SetupOwner { poster, reservation });
            entry.quarantine = Some(true);
        }
        self.settle(token, earlier, Ghost(*old(self)));
        true
    }

    /// Keeps a connection that could be neither registered nor undone.
    pub fn retain_detached_quarantine(
        &mut self,
        token: ConnectionToken,
        connection: ConnectionState,
    ) -> (retained: bool)
        requires
            old(self).wf(),
        ensures
            final(self).wf(),
            retained == (old(self)@.has(token) && old(self)@.entry(token).is_establishing()),
            final(self)@ == if retained {
                old(self)@.set(
                    token,
                    ConnectionEntry {
                        quarantine: Some(true),
                        connection: Some(connection.reservation_quarantined()),
                        ..old(self)@.entry(token)
                    },
                )
            } else {
                old(self)@
            },
    {
        let mut connection = connection;
        connection.mark_reservation_quarantined();
        let ready: bool = match self.slots.get(token) {
            Some(entry) => entry.quarantine.is_none() && entry.connection.is_none(),
            None => false,
        };
        if !ready {
            return false;
        }
        let earlier = self.mark_of(token);
        if let Some(entry) = self.slots.get_mut(token) {
            entry.connection = Some(connection);
            entry.quarantine = Some(true);
        }
        self.settle(token, earlier, Ghost(*old(self)));
        true
    }

    /// The entry once the quarantine of its bundle was lifted. Quarantined
    /// operations keep the entry quarantined; so does a setup that was never undone.
    pub open spec fn bundle_cleared(entry: ConnectionEntry) -> ConnectionEntry {
        match entry.connection {
            Some(connection) => ConnectionEntry {
                quarantine: if connection.io_ledger.quarantined@.len() != 0 {
                    Some(false)
                } else {
                    None
                },
                connection: Some(connection.reservation_recovered()),
                ..entry
            },
            None => if entry.setup is Some {
                entry
            } else {
                ConnectionEntry { quarantine: None, ..entry }
            },
        }
    }

    /// Lifts the quarantine of a whole bundle; true when no quarantined operation
    /// keeps the entry quarantined.
    pub fn clear_bundle_quarantine(&mut self, token: ConnectionToken) -> (cleared: bool)
        requires
            old(self).wf(),
        ensures
            final(self).wf(),
            cleared == (old(self)@.has(token) && old(self)@.entry(token).quarantine == Some(true)
                && (old(self)@.connected(token) ==> old(self)@.connection(
                token,
            ).io_ledger.quarantined@.len() == 0)),
            final(self)@ == if old(self)@.has(token) && old(self)@.entry(token).quarantine == Some(
                true,
            ) {
                old(self)@.set(token, Self::bundle_cleared(old(self)@.entry(token)))
            } else {
                old(self)@
            },
    {
        let ready: bool = match self.slots.get(token) {
            Some(entry) => match entry.quarantine {
                Some(bundle) => bundle,
                None => false,
            },
            None => false,
        };
        if !ready {
            return false;
        }
        let mut cleared: bool = true;
        let earlier = self.mark_of(token);
        if let Some(entry) = self.slots.get_mut(token) {
            match &mut entry.connection {
                Some(connection) => {
                    connection.recover_reservation_quarantine();
                    if connection.io_ledger.quarantined_operation_count() != 0 {
                        cleared = false;
                        entry.quarantine = Some(false);
                    } else {
                        entry.quarantine = None;
                    }
                },
                None => {
                    if entry.setup.is_none() {
                        entry.quarantine = None;
                    }
                },
            }
        }
        self.settle(token, earlier, Ghost(*old(self)));
        cleared
    }

    /// Lifts the quarantine of one operation. An entry that was quarantined for
    /// operations alone leaves quarantine with it; true exactly then.
    pub fn clear_operation_quarantine(
        &mut self,
        token: ConnectionToken,
        operation: OperationToken,
    ) -> (restored: bool)
        requires
            old(self).wf(),
        ensures
            final(self).wf(),
            restored == (old(self)@.connected(token) && old(self)@.entry(token).quarantine == Some(
                false,
            ) && old(self)@.connection(token).io_ledger.quarantined@.contains(operation)),
            if old(self)@.connected(token) && old(self)@.entry(token).quarantine is Some && old(
                self,
            )@.connection(token).io_ledger.quarantined@.contains(operation) {
                &&& final(self)@.connected(token)
                &&& final(self)@ == old(self)@.set(
                    token,
                    ConnectionEntry {
                        quarantine: if restored {
                            None
                        } else {
                            Some(true)
                        },
                        connection: Some(
                            ConnectionState {
                                io_ledger: final(self)@.connection(token).io_ledger,
                                ..old(self)@.connection(token)
                            },
                        ),
                        ..old(self)@.entry(token)
                    },
                )
                &&& final(self)@.connection(token).io_ledger.accepted == old(self)@.connection(
                    token,
                ).io_ledger.accepted
                &&& final(self)@.connection(token).io_ledger.completion_work == old(
                    self,
                )@.connection(token).io_ledger.completion_work
                &&& exists|i: int|
                    0 <= i < old(self)@.connection(token).io_ledger.quarantined@.len() && old(
                        self,
                    )@.connection(token).io_ledger.quarantined@[i] == operation
                        && #[trigger] old(self)@.connection(
                        token,
                    ).io_ledger.quarantined@.remove(i) == final(self)@.connection(
                        token,
                    ).io_ledger.quarantined@
            } else {
                final(self)@ == old(self)@
            },
    {
        let (ready, bundle): (bool, bool) = match self.slots.get(token) {
            Some(entry) => match entry.quarantine {
                Some(bundle) => (entry.connection.is_some(), bundle),
                None => (false, false),
            },
            None => (false, false),
        };
        if !ready {
            return false;
        }
        let mut cleared: bool = false;
        let earlier = self.mark_of(token);
        if let Some(entry) = self.slots.get_mut(token) {
            if let Some(connection) = &mut entry.connection {
                cleared = connection.io_ledger.clear_operation_quarantined(operation);
            }
            if cleared && !bundle {
                entry.quarantine = None;
            }
        }
        self.settle(token, earlier, Ghost(*old(self)));
        proof {
            if !cleared {
                assert(self@.slots.entries =~= old(self)@.slots.entries);
            }
        }
        cleared && !bundle
    }

    /// The slot-table answer for `token`, as far as connections are concerned.
    pub open spec fn snapshot_of(view: RegistryView, token: ConnectionToken) -> Lookup<
        ConnectionSnapshot,
    > {
        match view.slots.lookup(token) {
            Lookup::Occupied(entry) => match entry.connection {
                Some(connection) => Lookup::Occupied(
                    ConnectionSnapshot { qp_num: connection.qp_num },
                ),
                None => Lookup::Unknown,
            },
            Lookup::Duplicate => Lookup::Duplicate,
            Lookup::Stale => Lookup::Stale,
            Lookup::Unknown => Lookup::Unknown,
            Lookup::Retired => Lookup::Retired,
        }
    }

    /// The connection under `token`, or why there is none.
    pub fn lookup(&self, token: ConnectionToken) -> (found: Lookup<ConnectionSnapshot>)
        requires
            self.wf(),
        ensures
            found == Self::snapshot_of(self@, token),
            found is Occupied <==> self@.connected(token),
    {
        proof {
            self.slots.entries_are_found();
        }
        match self.slots.lookup_ref(token) {
            Lookup::Occupied(entry) => match &entry.connection {
                Some(connection) => Lookup::Occupied(
                    ConnectionSnapshot { qp_num: connection.qp_num },
                ),
                None => Lookup::Unknown,
            },
            Lookup::Duplicate => Lookup::Duplicate,
            Lookup::Stale => Lookup::Stale,
            Lookup::Unknown => Lookup::Unknown,
            Lookup::Retired => Lookup::Retired,
        }
    }

    /// The slot-table answer for `token`, as far as routes of one direction are concerned.
    pub open spec fn route_of(
        view: RegistryView,
        token: ConnectionToken,
        direction: ConnectionRouteDirection,
    ) -> Lookup<ConnectionRouteIdentity> {
        match view.slots.lookup(token) {
            Lookup::Occupied(entry) => match (direction, entry.route) {
                (ConnectionRouteDirection::Outbound, Route::Outbound(route)) => Lookup::Occupied(
                    ConnectionRouteIdentity {
                        token,
                        raw_id: route.raw_id,
                        context_key: route.context_key,
                        direction,
                    },
                ),
                (ConnectionRouteDirection::Inbound, Route::Inbound(route)) => Lookup::Occupied(
                    ConnectionRouteIdentity {
                        token,
                        raw_id: route.raw_id,
                        context_key: route.context_key,
                        direction,
                    },
                ),
                _ => Lookup::Unknown,
            },
            Lookup::Duplicate => Lookup::Duplicate,
            Lookup::Stale => Lookup::Stale,
            Lookup::Unknown => Lookup::Unknown,
            Lookup::Retired => Lookup::Retired,
        }
    }

    fn lookup_route(
        &self,
        token: ConnectionToken,
        direction: ConnectionRouteDirection,
    ) -> (found: Lookup<ConnectionRouteIdentity>)
        requires
            self.wf(),
        ensures
            found == Self::route_of(self@, token, direction),
    {
        match self.slots.lookup_ref(token) {
            Lookup::Occupied(entry) => match (direction, &entry.route) {
                (ConnectionRouteDirection::Outbound, Route::Outbound(route)) => Lookup::Occupied(
                    ConnectionRouteIdentity {
                        token,
                        raw_id: route.raw_id,
                        context_key: route.context_key,
                        direction,
                    },
                ),
                (ConnectionRouteDirection::Inbound, Route::Inbound(route)) => Lookup::Occupied(
                    ConnectionRouteIdentity {
                        token,
                        raw_id: route.raw_id,
                        context_key: route.context_key,
                        direction,
                    },
                ),
                _ => Lookup::Unknown,
            },
            Lookup::Duplicate => Lookup::Duplicate,
            Lookup::Stale => Lookup::Stale,
            Lookup::Unknown => Lookup::Unknown,
            Lookup::Retired => Lookup::Retired,
        }
    }

    pub fn lookup_outbound(&self, token: ConnectionToken) -> (found: Lookup<
        ConnectionRouteIdentity,
    >)
        requires
            self.wf(),
        ensures
            found == Self::route_of(self@, token, ConnectionRouteDirection::Outbound),
    {
        self.lookup_route(token, ConnectionRouteDirection::Outbound)
    }

    pub fn lookup_inbound(&self, token: ConnectionToken) -> (found: Lookup<ConnectionRouteIdentity>)
        requires
            self.wf(),
        ensures
            found == Self::route_of(self@, token, ConnectionRouteDirection::Inbound),
    {
        self.lookup_route(token, ConnectionRouteDirection::Inbound)
    }

    pub fn phase(&self, token: ConnectionToken) -> (phase: Option<ConnectionPhase>)
        requires
            self.wf(),
        ensures
            phase is Some <==> self@.has(token),
            phase matches Some(value) ==> value == if self@.entry(token).quarantine is Some {
                ConnectionPhase::Quarantined
            } else {
                match self@.entry(token).lifecycle {
                    Lifecycle::Outbound => ConnectionPhase::Outbound,
                    Lifecycle::Inbound => ConnectionPhase::Inbound,
                    Lifecycle::Active => ConnectionPhase::Active,
                    Lifecycle::Draining => ConnectionPhase::Draining,
                    Lifecycle::Retiring { .. } => ConnectionPhase::Retiring,
                    Lifecycle::Retired => ConnectionPhase::Retired,
                }
            },
    {
        match self.slots.get(token) {
            Some(entry) => Some(entry.phase()),
            None => None,
        }
    }

    /// The entry under `token`.
    pub fn get(&self, token: ConnectionToken) -> (found: Option<&ConnectionEntry>)
        requires
            self.wf(),
        ensures
            match found {
                Some(entry) => self@.has(token) && *entry == self@.entry(token),
                None => !self@.has(token),
            },
    {
        self.slots.get(token)
    }

    pub fn io_is_open(&self, token: ConnectionToken) -> (open: bool)
        requires
            self.wf(),
        ensures
            open == (self@.has(token) && self@.entry(token).is_live(Lifecycle::Active)
                && !self@.connection(token).io_closed),
    {
        match self.slots.get(token) {
            Some(entry) => entry.quarantine.is_none() && entry.lifecycle == Lifecycle::Active
                && match &entry.connection {
                Some(connection) => connection.io_is_open(),
                None => false,
            },
            None => false,
        }
    }

    pub fn close_started(&self, token: ConnectionToken) -> (started: bool)
        requires
            self.wf(),
        ensures
            started == (self@.has(token) && self@.entry(token).close_started()),
    {
        match self.slots.get(token) {
            Some(entry) => match entry.lifecycle {
                Lifecycle::Draining | Lifecycle::Retiring { .. } => true,
                _ => false,
            },
            None => false,
        }
    }

    pub fn is_quarantined(&self, token: ConnectionToken) -> (held: bool)
        requires
            self.wf(),
        ensures
            held == (self@.has(token) && self@.entry(token).quarantine is Some),
    {
        match self.slots.get(token) {
            Some(entry) => entry.quarantine.is_some(),
            None => false,
        }
    }

    /// How many operations the connection's queue pair has accepted.
    pub open spec fn accepted_of(view: RegistryView, token: ConnectionToken) -> nat {
        if view.connected(token) {
            view.connection(token).io_ledger.accepted@.len()
        } else {
            0
        }
    }

    pub fn accepted_count(&self, token: ConnectionToken) -> (count: usize)
        requires
            self.wf(),
        ensures
            count == Self::accepted_of(self@, token),
    {
        match self.connection(token) {
            Some(connection) => connection.io_ledger.accepted_count(),
            None => 0,
        }
    }

    pub fn mark_drained_once(&mut self, token: ConnectionToken) -> (first: bool)
        requires
            old(self).wf(),
        ensures
            final(self).wf(),
            first == (old(self)@.connected(token) && !old(self)@.connection(
                token,
            ).drained_recorded),
            final(self)@ == if old(self)@.connected(token) {
                old(self)@.set_connection(
                    token,
                    ConnectionState { drained_recorded: true, ..old(self)@.connection(token) },
                )
            } else {
                old(self)@
            },
    {
        match self.connection_mut(token) {
            Some(connection) => connection.mark_drained_once(),
            None => false,
        }
    }

    /// Whether `token` names the live owner of a queue-pair number.
    pub open spec fn live_io(view: RegistryView, token: ConnectionToken, qp_num: u32) -> bool {
        &&& view.connected(token)
        &&& view.connection(token).qp_num == qp_num
        &&& view.qp_index.contains_key(qp_num)
        &&& view.qp_index[qp_num] == token
    }

    /// The evidence that `token` names the live owner of a queue-pair number.
    pub fn prove_live_io(&self, token: ConnectionToken, qp_num: u32) -> (evidence: Option<
        LiveIoConnectionProof,
    >)
        requires
            self.wf(),
        ensures
            evidence is Some <==> Self::live_io(self@, token, qp_num),
            evidence matches Some(live) ==> live.token() == token && live.queue_pair() == qp_num,
    {
        match self.connection(token) {
            Some(connection) => {
                if connection.qp_num != qp_num {
                    return None;
                }
                match self.lookup_qp(qp_num) {
                    Some(owner) => if owner == token {
                        Some(LiveIoConnectionProof { connection: token, qp_num })
                    } else {
                        None
                    },
                    None => None,
                }
            },
            None => None,
        }
    }

    pub fn lookup_qp(&self, qp_num: u32) -> (owner: Option<ConnectionToken>)
        requires
            self.wf(),
        ensures
            match owner {
                Some(token) => self@.qp_index.contains_key(qp_num) && self@.qp_index[qp_num]
                    == token,
                None => !self@.qp_index.contains_key(qp_num),
            },
    {
        broadcast use vstd::std_specs::hash::group_hash_axioms;

        match self.qp_index.get(&qp_num) {
            Some(token) => Some(*token),
            None => None,
        }
    }

    /// Overwrites the owner of a queue-pair number.
    pub fn set_qp_mapping(&mut self, qp_num: u32, token: ConnectionToken)
        requires
            old(self).wf(),
        ensures
            final(self).wf(),
            final(self)@ == (RegistryView {
                qp_index: old(self)@.qp_index.insert(qp_num, token),
                ..old(self)@
            }),
    {
        broadcast use vstd::std_specs::hash::group_hash_axioms;

        self.qp_index.insert(qp_num, token);
    }

    /// Forgets the owner of a queue-pair number, if `token` is the owner.
    pub fn detach_qp_index(&mut self, token: ConnectionToken, qp_num: u32) -> (detached: bool)
        requires
            old(self).wf(),
        ensures
            final(self).wf(),
            detached == (old(self)@.qp_index.contains_key(qp_num) && old(self)@.qp_index[qp_num]
                == token),
            final(self)@ == if detached {
                RegistryView { qp_index: old(self)@.qp_index.remove(qp_num), ..old(self)@ }
            } else {
                old(self)@
            },
    {
        broadcast use vstd::std_specs::hash::group_hash_axioms;

        let owned: bool = match self.lookup_qp(qp_num) {
            Some(owner) => owner == token,
            None => false,
        };
        if owned {
            self.qp_index.remove(&qp_num);
        }
        owned
    }

    proof fn removing_an_entry(before: Self, after: Self, token: ConnectionToken, completed: bool)
        requires
            before.wf(),
            before@.has(token),
            after.slots.wf(),
            after.slots@ == before.slots@.removed(token, completed),
            after.capacity == before.capacity,
            after.route_count == before.route_count - if before@.entry(token).has_route() {
                1int
            } else {
                0
            },
            before.counts.moved(after.counts, before@.entry(token).marked(), None),
        ensures
            after.wf(),
    {
        before.slots.entries_are_found();
        withdrawing_keeps_counts_exact(
            before.counts,
            after.counts,
            before.slots@.entries,
            token,
        );
        if before@.entry(token).has_route() {
            assert(after@.routed() =~= before@.routed().remove(token));
        } else {
            assert(after@.routed() =~= before@.routed());
        }
    }

    proof fn marked_is_counted(&self, token: ConnectionToken)
        requires
            self.wf(),
            self@.has(token),
        ensures
            forall|count: BundleCount|
                counts_in(self@.entry(token).marked(), count) ==> #[trigger] self.counts.of(count)
                    > 0,
    {
        self.slots.entries_are_found();
        counted_entries_show(self.counts, self.slots@.entries, token);
    }

    proof fn routed_is_counted(&self, token: ConnectionToken)
        requires
            self.wf(),
            self@.has(token),
            self@.entry(token).has_route(),
        ensures
            self.route_count > 0,
    {
        assert(self@.routed().contains(token));
        if self@.routed().len() == 0 {
            assert(self@.routed() =~= Set::empty());
        }
    }

    /// The registry without the entry of `token`.
    pub open spec fn without(view: RegistryView, token: ConnectionToken, completed: bool) -> RegistryView {
        RegistryView {
            slots: view.slots.removed(token, completed),
            spent: view.spent + if token.generation == u32::MAX {
                1nat
            } else {
                0
            },
            ..view
        }
    }

    /// Takes an entry out, handing over its connection.
    pub fn release_unindexed(&mut self, token: ConnectionToken) -> (released: Option<
        ConnectionState,
    >)
        requires
            old(self).wf(),
        ensures
            final(self).wf(),
            if old(self)@.has(token) {
                &&& released == old(self)@.entry(token).connection
                &&& final(self)@ == Self::without(old(self)@, token, true)
            } else {
                released is None && final(self)@ == old(self)@
            },
    {
        match self.slots.release(token, true) {
            Some(entry) => {
                let routed: bool = match &entry.route {
                    Route::Unrouted => false,
                    _ => true,
                };
                if routed {
                    proof {
                        old(self).routed_is_counted(token);
                    }
                    self.route_count = self.route_count - 1;
                }
                proof {
                    old(self).marked_is_counted(token);
                }
                self.counts.recount(entry.mark(), None);
                proof {
                    Self::removing_an_entry(*old(self), *self, token, true);
                }
                entry.connection
            },
            None => None,
        }
    }

    /// Whether releasing the route of an entry takes anything away.
    pub open spec fn route_releasable(entry: ConnectionEntry) -> bool {
        entry.connection is None || (entry.has_route() && !(entry.lifecycle is Outbound)
            && !(entry.lifecycle is Inbound))
    }

    /// The registry after the route under `token` was released.
    pub open spec fn route_released(
        view: RegistryView,
        token: ConnectionToken,
        completed: bool,
    ) -> RegistryView {
        if !view.has(token) || !Self::route_releasable(view.entry(token)) {
            view
        } else if view.entry(token).connection is None {
            Self::without(view, token, completed)
        } else {
            view.set(token, ConnectionEntry { route: Route::Unrouted, ..view.entry(token) })
        }
    }

    /// Whether the bundle under `token` can still be quarantined.
    pub open spec fn bundle_open(view: RegistryView, token: ConnectionToken) -> bool {
        view.has(token) && view.entry(token).quarantine != Some(true) && !view.entry(token).is_live(
            Lifecycle::Retired,
        )
    }

    /// Whether `after` is the registry once the bundle under `token` was
    /// quarantined and `error` was published as the cause.
    pub open spec fn quarantine_published(
        before: RegistryView,
        after: RegistryView,
        token: ConnectionToken,
        error: Error,
    ) -> bool {
        if before.connected(token) {
            let quarantined = before.entry(token).bundle_quarantined();
            &&& after.connected(token)
            &&& after == before.set(
                token,
                ConnectionEntry { connection: after.entry(token).connection, ..quarantined },
            )
            &&& quarantined.connection->0.destroy_quarantined(after.connection(token), error)
        } else if Self::bundle_open(before, token) {
            after == before.set(token, before.entry(token).bundle_quarantined())
        } else {
            after == before
        }
    }

    /// The publications of a destruction quarantine: the close waiters are woken,
    /// and the I/O side learns of it the first time.
    pub open spec fn quarantine_actions(
        before: RegistryView,
        after: RegistryView,
        token: ConnectionToken,
        actions: Seq<Action>,
    ) -> Seq<Action> {
        let woken = actions.push(
            Action::WakeClose { connection: before.connection(token).token },
        );
        if !before.connected(token) {
            actions
        } else if before.connection(token).close_is_quarantined() {
            woken
        } else {
            woken.push(
                Action::IoEvent {
                    connection: token,
                    event: IoTerminalEvent::Terminal(after.connection(token).close_error()),
                },
            )
        }
    }

    /// Quarantines the bundle under `token` because `error` kept its resources
    /// from being destroyed, and publishes that.
    pub fn quarantine_and_publish(
        &mut self,
        token: ConnectionToken,
        error: &Error,
        actions: &mut ReactorActions,
    ) -> (first: bool)
        requires
            old(self).wf(),
        ensures
            final(self).wf(),
            first == Self::bundle_open(old(self)@, token),
            Self::quarantine_published(old(self)@, final(self)@, token, *error),
            final(actions)@ == Self::quarantine_actions(
                old(self)@,
                final(self)@,
                token,
                old(actions)@,
            ),
    {
        let first: bool = self.track_bundle_quarantine(token);
        proof {
            if !first && old(self)@.connected(token) {
                assert(old(self)@.set(
                    token,
                    old(self)@.entry(token).bundle_quarantined(),
                ).slots.entries =~= old(self)@.slots.entries);
            }
        }
        let ghost held = self@;
        assert(held.connected(token) == old(self)@.connected(token));
        if let Some(connection) = self.connection_mut(token) {
            let event = connection.publish_destroy_quarantine_into(error, actions);
            if let Some(event) = event {
                actions.push(Action::IoEvent { connection: token, event });
            }
        }
        proof {
            if old(self)@.connected(token) {
                assert(self@.slots.entries =~= old(self)@.slots.entries.insert(
                    token,
                    self@.entry(token),
                ));
            }
        }
        first
    }

    /// Releases the route under `token`: with its entry, where it never got a
    /// connection, else alone. The route of a connection that is not yet
    /// established stays.
    pub fn release_route(&mut self, token: ConnectionToken, completed: bool) -> (released: bool)
        requires
            old(self).wf(),
        ensures
            final(self).wf(),
            released == (old(self)@.has(token) && Self::route_releasable(old(self)@.entry(token))),
            final(self)@ == Self::route_released(old(self)@, token, completed),
    {
        let (connected, held): (bool, bool) = match self.slots.get(token) {
            Some(entry) => (
                entry.connection.is_some(),
                match (&entry.route, entry.lifecycle) {
                    (Route::Unrouted, _) => false,
                    (_, Lifecycle::Outbound) | (_, Lifecycle::Inbound) => false,
                    _ => true,
                },
            ),
            None => {
                return false;
            },
        };
        if !connected {
            proof {
                old(self).routed_is_counted(token);
            }
            proof {
                old(self).marked_is_counted(token);
            }
            let earlier = self.mark_of(token);
            let _ = self.slots.release(token, completed);
            self.route_count = self.route_count - 1;
            self.counts.recount(earlier, None);
            proof {
                Self::removing_an_entry(*old(self), *self, token, completed);
            }
            return true;
        }
        if !held {
            return false;
        }
        proof {
            old(self).routed_is_counted(token);
        }
        if let Some(entry) = self.slots.get_mut(token) {
            entry.route = Route::Unrouted;
        }
        self.route_count = self.route_count - 1;
        proof {
            assert(self@.routed() =~= old(self)@.routed().remove(token));
            Self::keeping_a_mark(*old(self), *self, token);
        }
        true
    }

    /// Takes out a connection whose retirement has started, if it owns `qp_num`.
    pub fn release(&mut self, token: ConnectionToken, qp_num: u32) -> (released: Option<
        ConnectionState,
    >)
        requires
            old(self).wf(),
        ensures
            final(self).wf(),
            if old(self)@.qp_index.contains_key(qp_num) && old(self)@.qp_index[qp_num] == token
                && old(self)@.has(token) && old(self)@.entry(token).is_live(
                Lifecycle::Retiring { started: true },
            ) {
                &&& released == Some(old(self)@.connection(token))
                &&& final(self)@ == (RegistryView {
                    qp_index: old(self)@.qp_index.remove(qp_num),
                    ..Self::without(old(self)@, token, true)
                })
            } else {
                released is None && final(self)@ == old(self)@
            },
    {
        let owned: bool = match self.lookup_qp(qp_num) {
            Some(owner) => owner == token,
            None => false,
        };
        let started: bool = match self.slots.get(token) {
            Some(entry) => entry.quarantine.is_none() && entry.lifecycle == (Lifecycle::Retiring {
                started: true,
            }),
            None => false,
        };
        if !owned || !started {
            return None;
        }
        let _ = self.detach_qp_index(token, qp_num);
        self.release_unindexed(token)
    }

    /// The outbound route under `token`.
    pub fn outbound_route(&self, token: ConnectionToken) -> (found: Option<&OutboundRoute>)
        requires
            self.wf(),
        ensures
            match found {
                Some(route) => self@.outbound(token) && *route == self@.outbound_route(token),
                None => !self@.outbound(token),
            },
    {
        match self.slots.get(token) {
            Some(entry) => match &entry.route {
                Route::Outbound(route) => Some(route),
                _ => None,
            },
            None => None,
        }
    }

    /// Mutable access to the outbound route under `token`.
    pub fn outbound_route_mut(&mut self, token: ConnectionToken) -> (found: Option<
        &mut OutboundRoute,
    >)
        requires
            old(self).wf(),
        ensures
            match found {
                Some(route) => {
                    &&& old(self)@.outbound(token)
                    &&& *route == old(self)@.outbound_route(token)
                    &&& final(route).state.held() == route.state.held() ==> final(self).wf()
                    &&& final(self)@ == old(self)@.set_outbound(token, *final(route))
                },
                None => !old(self)@.outbound(token) && *final(self) == *old(self),
            },
    {
        if self.outbound_route(token).is_none() {
            return None;
        }
        match self.slots.get_mut(token) {
            Some(entry) => match &mut entry.route {
                Route::Outbound(route) => {
                    proof {
                        Self::reaching_an_entry(*old(self), after_borrow(*self), token);
                    }
                    Some(route)
                },
                _ => None,
            },
            None => None,
        }
    }

    /// The inbound route under `token`.
    pub fn inbound_route(&self, token: ConnectionToken) -> (found: Option<&InboundRoute>)
        requires
            self.wf(),
        ensures
            match found {
                Some(route) => self@.inbound(token) && *route == self@.inbound_route(token),
                None => !self@.inbound(token),
            },
    {
        match self.slots.get(token) {
            Some(entry) => match &entry.route {
                Route::Inbound(route) => Some(route),
                _ => None,
            },
            None => None,
        }
    }

    /// Mutable access to the inbound route under `token`.
    pub fn inbound_route_mut(&mut self, token: ConnectionToken) -> (found: Option<
        &mut InboundRoute,
    >)
        requires
            old(self).wf(),
        ensures
            match found {
                Some(route) => {
                    &&& old(self)@.inbound(token)
                    &&& *route == old(self)@.inbound_route(token)
                    &&& final(route).state.held() == route.state.held() ==> final(self).wf()
                    &&& final(self)@ == old(self)@.set_inbound(token, *final(route))
                },
                None => !old(self)@.inbound(token) && *final(self) == *old(self),
            },
    {
        if self.inbound_route(token).is_none() {
            return None;
        }
        match self.slots.get_mut(token) {
            Some(entry) => match &mut entry.route {
                Route::Inbound(route) => {
                    proof {
                        Self::reaching_an_entry(*old(self), after_borrow(*self), token);
                    }
                    Some(route)
                },
                _ => None,
            },
            None => None,
        }
    }

    /// Takes the state of an outbound route out, leaving the route transitioning.
    pub fn take_outbound_state(&mut self, token: ConnectionToken) -> (state: OutboundState)
        requires
            old(self).wf(),
            old(self)@.outbound(token),
        ensures
            final(self).wf(),
            state == old(self)@.outbound_route(token).state,
            final(self)@ == old(self)@.set_outbound_state(token, OutboundState::Transitioning),
    {
        let earlier = self.mark_of(token);
        let mut state = OutboundState::Transitioning;
        if let Some(entry) = self.slots.get_mut(token) {
            if let Route::Outbound(route) = &mut entry.route {
                state = route.take_state();
            }
        }
        self.settle(token, earlier, Ghost(*old(self)));
        state
    }

    /// Puts an outbound route into a state.
    pub fn set_outbound_state(&mut self, token: ConnectionToken, state: OutboundState) -> (set: bool)
        requires
            old(self).wf(),
        ensures
            final(self).wf(),
            set == old(self)@.outbound(token),
            final(self)@ == if set {
                old(self)@.set_outbound_state(token, state)
            } else {
                old(self)@
            },
    {
        if self.outbound_route(token).is_none() {
            return false;
        }
        let earlier = self.mark_of(token);
        if let Some(entry) = self.slots.get_mut(token) {
            if let Route::Outbound(route) = &mut entry.route {
                route.state = state;
            }
        }
        self.settle(token, earlier, Ghost(*old(self)));
        true
    }

    /// Takes the state of an inbound route out, leaving the route transitioning.
    pub fn take_inbound_state(&mut self, token: ConnectionToken) -> (state: InboundState)
        requires
            old(self).wf(),
            old(self)@.inbound(token),
        ensures
            final(self).wf(),
            state == old(self)@.inbound_route(token).state,
            final(self)@ == old(self)@.set_inbound_state(token, InboundState::Transitioning),
    {
        let earlier = self.mark_of(token);
        let mut state = InboundState::Transitioning;
        if let Some(entry) = self.slots.get_mut(token) {
            if let Route::Inbound(route) = &mut entry.route {
                state = route.take_state();
            }
        }
        self.settle(token, earlier, Ghost(*old(self)));
        state
    }

    /// Puts an inbound route into a state.
    pub fn set_inbound_state(&mut self, token: ConnectionToken, state: InboundState) -> (set: bool)
        requires
            old(self).wf(),
        ensures
            final(self).wf(),
            set == old(self)@.inbound(token),
            final(self)@ == if set {
                old(self)@.set_inbound_state(token, state)
            } else {
                old(self)@
            },
    {
        if self.inbound_route(token).is_none() {
            return false;
        }
        let earlier = self.mark_of(token);
        if let Some(entry) = self.slots.get_mut(token) {
            if let Route::Inbound(route) = &mut entry.route {
                route.state = state;
            }
        }
        self.settle(token, earlier, Ghost(*old(self)));
        true
    }

    /// Records what identifies the route under `token` to the connection manager.
    pub fn set_route_identity(&mut self, token: ConnectionToken, raw_id: u64, context_key: u64) -> (set:
        bool)
        requires
            old(self).wf(),
        ensures
            final(self).wf(),
            set == (old(self)@.has(token) && old(self)@.entry(token).has_route()),
            final(self)@ == if old(self)@.outbound(token) {
                old(self)@.set_outbound(
                    token,
                    OutboundRoute { raw_id, context_key, ..old(self)@.outbound_route(token) },
                )
            } else if old(self)@.inbound(token) {
                old(self)@.set_inbound(
                    token,
                    InboundRoute { raw_id, context_key, ..old(self)@.inbound_route(token) },
                )
            } else {
                old(self)@
            },
    {
        if let Some(route) = self.outbound_route_mut(token) {
            route.raw_id = raw_id;
            route.context_key = context_key;
            return true;
        }
        match self.inbound_route_mut(token) {
            Some(route) => {
                route.raw_id = raw_id;
                route.context_key = context_key;
                true
            },
            None => false,
        }
    }

    /// The listener that an inbound route belongs to.
    pub fn inbound_listener(&self, token: ConnectionToken) -> (listener: Option<ListenerToken>)
        requires
            self.wf(),
        ensures
            listener == if self@.inbound(token) {
                Some(self@.inbound_route(token).listener)
            } else {
                None
            },
    {
        match self.inbound_route(token) {
            Some(route) => Some(route.listener),
            None => None,
        }
    }

    /// The request that the outbound route under `token` still works for.
    pub fn outbound_request(&self, token: ConnectionToken) -> (request: Option<RequestToken>)
        requires
            self.wf(),
        ensures
            request == if self@.outbound(token) {
                self@.outbound_route(token).state.waiting_request()
            } else {
                None
            },
    {
        match self.outbound_route(token) {
            Some(route) => route.request(),
            None => None,
        }
    }

    pub fn outbound_is_establishing(&self, token: ConnectionToken) -> (establishing: bool)
        requires
            self.wf(),
        ensures
            establishing == (self@.outbound(token) && self@.outbound_route(
                token,
            ).state.establishing()),
    {
        match self.outbound_route(token) {
            Some(route) => route.is_establishing(),
            None => false,
        }
    }

    pub fn outbound_is_disconnected(&self, token: ConnectionToken) -> (disconnected: bool)
        requires
            self.wf(),
        ensures
            disconnected == (self@.outbound(token) && self@.outbound_route(
                token,
            ).state.disconnected()),
    {
        match self.outbound_route(token) {
            Some(route) => route.is_disconnected(),
            None => false,
        }
    }

    /// The route that the connection's events arrive on.
    pub fn connection_route(&self, token: ConnectionToken) -> (route: Option<ConnectionCmRoute>)
        requires
            self.wf(),
        ensures
            match route {
                Some(ConnectionCmRoute::Outbound(encoded)) => self@.outbound(token) && encoded
                    == token.encoded(),
                Some(ConnectionCmRoute::Inbound(encoded)) => self@.inbound(token) && encoded
                    == token.encoded(),
                None => !self@.outbound(token) && !self@.inbound(token),
            },
    {
        if self.outbound_route(token).is_some() {
            Some(ConnectionCmRoute::Outbound(token.encode()))
        } else if self.inbound_route(token).is_some() {
            Some(ConnectionCmRoute::Inbound(token.encode()))
        } else {
            None
        }
    }

    fn destroy_registered_qp(&mut self, token: ConnectionToken, reply: Result<bool, Error>) -> (result:
        Result<QpDestroyStatus, Error>)
        requires
            old(self).wf(),
            old(self)@.connected(token),
        ensures
            final(self).wf(),
            final(self)@ == old(self)@.set_connection(
                token,
                old(self)@.connection(token).after_qp_destroy(reply),
            ),
            old(self)@.connection(token).qp_destroy_answer(reply, result),
    {
        let earlier = self.mark_of(token);
        let mut result: Result<QpDestroyStatus, Error> = Err(Error::TransportClosed);
        if let Some(entry) = self.slots.get_mut(token) {
            if let Some(connection) = &mut entry.connection {
                result = connection.destroy_qp_for_session(reply);
            }
        }
        self.settle(token, earlier, Ghost(*old(self)));
        result
    }

    /// Destroys the connection's queue pair and makes the one proof of it.
    ///
    /// The provider answers a destroy that is still needed with `reply`. A second
    /// proof is refused.
    pub fn establish_qp_destruction_proof(
        &mut self,
        token: ConnectionToken,
        reply: Result<bool, Error>,
    ) -> (result: Result<QpDestructionProof, Error>)
        requires
            old(self).wf(),
        ensures
            final(self).wf(),
            if !old(self)@.connected(token) {
                &&& final(self)@ == old(self)@
                &&& result == Err::<QpDestructionProof, Error>(Error::TransportClosed)
            } else {
                let connection = old(self)@.connection(token);
                &&& final(self)@ == old(self)@.set_connection(
                    token,
                    connection.after_qp_destroy(reply),
                )
                &&& if connection.qp_destroyed {
                    result matches Err(error) && error.is_invalid_config(
                        "QP destruction proof was already minted and cannot be replayed"@,
                    )
                } else {
                    match connection.poster.destroyed(reply) {
                        Ok(true) => result matches Ok(evidence) && evidence.proven_connection()
                            == token && evidence.proven_qp_num() == connection.qp_num,
                        Ok(false) => result matches Err(error) && error.is_invalid_config(
                            "QP ownership disappeared before its destruction boundary was recorded"@,
                        ),
                        Err(error) => result == Err::<QpDestructionProof, Error>(error),
                    }
                }
            },
    {
        let qp_num: u32 = match self.connection(token) {
            Some(connection) => connection.qp_num,
            None => {
                return Err(Error::TransportClosed);
            },
        };
        match self.destroy_registered_qp(token, reply) {
            Ok(QpDestroyStatus::DestroyedNow) => Ok(QpDestructionProof::mint(token, qp_num)),
            Ok(QpDestroyStatus::AlreadyDestroyed) => Err(
                Error::invalid("QP destruction proof was already minted and cannot be replayed"),
            ),
            Err(error) => Err(error),
        }
    }

    /// Makes sure that the connection's queue pair is destroyed.
    pub fn ensure_qp_destroyed(&mut self, token: ConnectionToken, reply: Result<bool, Error>) -> (result:
        Result<(), Error>)
        requires
            old(self).wf(),
        ensures
            final(self).wf(),
            if !old(self)@.connected(token) {
                &&& final(self)@ == old(self)@
                &&& result == Err::<(), Error>(Error::TransportClosed)
            } else {
                let connection = old(self)@.connection(token);
                &&& final(self)@ == old(self)@.set_connection(
                    token,
                    connection.after_qp_destroy(reply),
                )
                &&& result is Ok <==> connection.after_qp_destroy(reply).qp_destroyed
                &&& result matches Err(error) ==> match connection.poster.destroyed(reply) {
                    Err(cause) => error == cause,
                    Ok(_) => error.is_invalid_config(
                        "QP ownership disappeared before its destruction boundary was recorded"@,
                    ),
                }
            },
    {
        if self.connection(token).is_none() {
            return Err(Error::TransportClosed);
        }
        match self.destroy_registered_qp(token, reply) {
            Ok(_) => Ok(()),
            Err(error) => Err(error),
        }
    }

    /// Gives up the resources of the connection under `token`.
    pub fn destroy_connection_resources(
        &mut self,
        token: ConnectionToken,
        outstanding_operations: usize,
        reply: Result<bool, Error>,
    ) -> (result: Result<Option<CmId>, Error>)
        requires
            old(self).wf(),
        ensures
            final(self).wf(),
            if !old(self)@.connected(token) {
                &&& final(self)@ == old(self)@
                &&& result == Err::<Option<CmId>, Error>(Error::TransportClosed)
            } else if outstanding_operations != 0 {
                &&& final(self)@ == old(self)@
                &&& result == Err::<Option<CmId>, Error>(
                    Error::EngineWedged {
                        retained_bundles: 1,
                        outstanding_operations,
                        cq_debt: outstanding_operations,
                    },
                )
            } else {
                let connection = old(self)@.connection(token);
                &&& final(self)@ == old(self)@.set_connection(
                    token,
                    connection.after_resource_destroy(reply),
                )
                &&& if connection.qp_destroyed || connection.poster.destroyed(reply) == Ok::<
                    bool,
                    Error,
                >(true) {
                    result == Ok::<Option<CmId>, Error>(connection.poster.cm_owner())
                } else {
                    match connection.poster.destroyed(reply) {
                        Err(error) => result == Err::<Option<CmId>, Error>(error),
                        Ok(_) => result matches Err(error) && error.is_invalid_config(
                            "connection resources lost QP ownership without a destruction boundary"@,
                        ),
                    }
                }
            },
    {
        if self.connection(token).is_none() {
            return Err(Error::TransportClosed);
        }
        let earlier = self.mark_of(token);
        let mut result: Result<Option<CmId>, Error> = Err(Error::TransportClosed);
        if let Some(entry) = self.slots.get_mut(token) {
            if let Some(connection) = &mut entry.connection {
                result = connection.destroy_connection_resources(outstanding_operations, reply);
            }
        }
        self.settle(token, earlier, Ghost(*old(self)));
        proof {
            if outstanding_operations != 0 {
                assert(self@.slots.entries =~= old(self)@.slots.entries);
            }
        }
        result
    }

    /// Moves the queue pair of the connection under `token` to the error state, once.
    pub fn transition_connection_to_error(
        &mut self,
        token: ConnectionToken,
        reply: Result<(), Error>,
    ) -> (result: Result<bool, Error>)
        requires
            old(self).wf(),
        ensures
            final(self).wf(),
            if !old(self)@.connected(token) {
                &&& final(self)@ == old(self)@
                &&& result == Err::<bool, Error>(Error::TransportClosed)
            } else {
                let connection = old(self)@.connection(token);
                &&& final(self)@ == old(self)@.set_connection(
                    token,
                    connection.error_transitioned(reply),
                )
                &&& result == if connection.error_transition_started {
                    Ok(false)
                } else if !connection.poster.holds_qp() {
                    Ok(true)
                } else {
                    match reply {
                        Ok(()) => Ok(true),
                        Err(error) => Err(error),
                    }
                }
            },
    {
        match self.connection_mut(token) {
            None => Err(Error::TransportClosed),
            Some(connection) => connection.transition_to_error_once(reply),
        }
    }

    pub fn enqueue_outbound(&mut self, request: RequestToken, reservation: ConnectionReservation)
        requires
            old(self).wf(),
        ensures
            final(self).wf(),
            final(self)@ == (RegistryView {
                pending_outbound: old(self)@.pending_outbound.push((request, reservation)),
                ..old(self)@
            }),
    {
        self.pending_outbound.push_back((request, reservation));
    }

    pub fn pop_outbound(&mut self) -> (next: Option<(RequestToken, ConnectionReservation)>)
        requires
            old(self).wf(),
        ensures
            final(self).wf(),
            match next {
                Some(first) => {
                    &&& old(self)@.pending_outbound.len() > 0
                    &&& first == old(self)@.pending_outbound[0]
                    &&& final(self)@ == (RegistryView {
                        pending_outbound: old(self)@.pending_outbound.drop_first(),
                        ..old(self)@
                    })
                },
                None => old(self)@.pending_outbound.len() == 0 && final(self)@ == old(self)@,
            },
    {
        let next = self.pending_outbound.pop_front();
        assert(self.pending_outbound@ =~= if old(self).pending_outbound@.len() > 0 {
            old(self).pending_outbound@.drop_first()
        } else {
            old(self).pending_outbound@
        });
        next
    }

    pub fn push_front_outbound(&mut self, request: RequestToken, reservation: ConnectionReservation)
        requires
            old(self).wf(),
        ensures
            final(self).wf(),
            final(self)@ == (RegistryView {
                pending_outbound: seq![(request, reservation)] + old(self)@.pending_outbound,
                ..old(self)@
            }),
    {
        self.pending_outbound.push_front((request, reservation));
    }

    pub fn pending_outbound_count(&self) -> (count: usize)
        ensures
            count == self@.pending_outbound.len(),
    {
        self.pending_outbound.len()
    }

    pub fn enqueue_cancellation(&mut self, request: RequestToken)
        requires
            old(self).wf(),
        ensures
            final(self).wf(),
            final(self)@ == (RegistryView {
                cancellations: old(self)@.cancellations.push(request),
                ..old(self)@
            }),
    {
        self.cancellations.push_back(request);
    }

    pub fn pop_cancellation(&mut self) -> (next: Option<RequestToken>)
        requires
            old(self).wf(),
        ensures
            final(self).wf(),
            match next {
                Some(first) => {
                    &&& old(self)@.cancellations.len() > 0
                    &&& first == old(self)@.cancellations[0]
                    &&& final(self)@ == (RegistryView {
                        cancellations: old(self)@.cancellations.drop_first(),
                        ..old(self)@
                    })
                },
                None => old(self)@.cancellations.len() == 0 && final(self)@ == old(self)@,
            },
    {
        let next = self.cancellations.pop_front();
        assert(self.cancellations@ =~= if old(self).cancellations@.len() > 0 {
            old(self).cancellations@.drop_first()
        } else {
            old(self).cancellations@
        });
        next
    }

    pub fn cancellation_count(&self) -> (count: usize)
        ensures
            count == self@.cancellations.len(),
    {
        self.cancellations.len()
    }

    pub fn enqueue_retirement(&mut self, token: ConnectionToken)
        requires
            old(self).wf(),
        ensures
            final(self).wf(),
            final(self)@ == (RegistryView {
                retirements: old(self)@.retirements.push(token),
                ..old(self)@
            }),
    {
        self.retirements.push_back(token);
    }

    pub fn pop_retirement(&mut self) -> (next: Option<ConnectionToken>)
        requires
            old(self).wf(),
        ensures
            final(self).wf(),
            match next {
                Some(first) => {
                    &&& old(self)@.retirements.len() > 0
                    &&& first == old(self)@.retirements[0]
                    &&& final(self)@ == (RegistryView {
                        retirements: old(self)@.retirements.drop_first(),
                        ..old(self)@
                    })
                },
                None => old(self)@.retirements.len() == 0 && final(self)@ == old(self)@,
            },
    {
        let next = self.retirements.pop_front();
        assert(self.retirements@ =~= if old(self).retirements@.len() > 0 {
            old(self).retirements@.drop_first()
        } else {
            old(self).retirements@
        });
        next
    }

    pub fn retirement_count(&self) -> (count: usize)
        ensures
            count == self@.retirements.len(),
    {
        self.retirements.len()
    }

    /// Takes the one turn of outbound setup, if it is free.
    pub fn try_begin_outbound_setup(&mut self) -> (begun: bool)
        requires
            old(self).wf(),
        ensures
            final(self).wf(),
            begun == !old(self)@.setup_active,
            final(self)@ == (RegistryView { setup_active: true, ..old(self)@ }),
    {
        if self.outbound_setup_active {
            false
        } else {
            self.outbound_setup_active = true;
            true
        }
    }

    pub fn finish_outbound_setup(&mut self)
        requires
            old(self).wf(),
        ensures
            final(self).wf(),
            final(self)@ == (RegistryView { setup_active: false, ..old(self)@ }),
    {
        self.outbound_setup_active = false;
    }

    /// Asks for a deadline `after` nanoseconds from `now`.
    pub fn schedule_deadline(&mut self, kind: DeadlineKind, token: u64, after: u64, now: u64)
        requires
            old(self).wf(),
        ensures
            final(self).wf(),
            final(self)@ == (RegistryView {
                deadlines: old(self)@.deadlines.push(
                    DeadlineRequest { at: deadline_at(now, after), kind, token },
                ),
                ..old(self)@
            }),
    {
        let at: u64 = match now.checked_add(after) {
            Some(at) => at,
            None => now,
        };
        self.deadline_requests.push_back(DeadlineRequest { at, kind, token });
    }

    /// Hands over the oldest deadline requests, no more than `budget`.
    pub fn take_deadline_requests(&mut self, budget: usize) -> (taken: Vec<DeadlineRequest>)
        requires
            old(self).wf(),
        ensures
            final(self).wf(),
            taken@.len() == if budget <= old(self)@.deadlines.len() {
                budget as nat
            } else {
                old(self)@.deadlines.len()
            },
            taken@ + final(self)@.deadlines == old(self)@.deadlines,
            final(self)@ == (RegistryView {
                deadlines: final(self)@.deadlines,
                ..old(self)@
            }),
    {
        let mut taken: Vec<DeadlineRequest> = Vec::new();
        while taken.len() < budget
            invariant_except_break
                taken@.len() <= budget,
            invariant
                self.slots == old(self).slots,
                self.qp_index == old(self).qp_index,
                self.capacity == old(self).capacity,
                self.pending_outbound == old(self).pending_outbound,
                self.cancellations == old(self).cancellations,
                self.retirements == old(self).retirements,
                self.outbound_setup_active == old(self).outbound_setup_active,
                self.route_count == old(self).route_count,
                self.counts == old(self).counts,
                self.admission == old(self).admission,
                taken@ + self.deadline_requests@ == old(self).deadline_requests@,
                taken@.len() <= budget,
            ensures
                taken@.len() == budget || self.deadline_requests@.len() == 0,
            decreases budget - taken.len(),
        {
            let ghost before = taken@ + self.deadline_requests@;
            match self.deadline_requests.pop_front() {
                Some(request) => {
                    taken.push(request);
                    assert(taken@ + self.deadline_requests@ =~= before);
                },
                None => {
                    break ;
                },
            }
        }
        assert(self@.routed() =~= old(self)@.routed());
        taken
    }

    pub fn deadline_request_count(&self) -> (count: usize)
        ensures
            count == self@.deadlines.len(),
    {
        self.deadline_requests.len()
    }

    /// Asks the admission for a permit; the connections that share it decide
    /// whether there is one.
    pub fn try_reserve(&self) -> (reservation: Option<ConnectionReservation>)
        ensures
            reservation matches Some(admitted) ==> admitted.is_fresh() && permit_source(
                admitted.permit,
            ) == self@.admission,
    {
        ConnectionReservation::from_permit(try_acquire(&self.admission))
    }

    /// Whether `counts` says how many bundles of the registry count as what.
    pub open spec fn counted(view: RegistryView, counts: ConnectionStateCountSnapshot) -> bool {
        forall|count: BundleCount| #[trigger]
            counts.of(count) == bundles_in(view.slots.entries, count).len()
    }

    /// How many bundles count as what, where `free` permits are left. The counts are
    /// kept as bundles change: no slot is looked at.
    pub fn count_bundles(&self, free: usize) -> (counts: ConnectionStateCountSnapshot)
        requires
            self.wf(),
        ensures
            counts.live == if free <= self@.slots.capacity {
                self@.slots.capacity - free
            } else {
                0
            },
            Self::counted(self@, counts),
    {
        let counts = ConnectionStateCountSnapshot {
            live: self.capacity.saturating_sub(free),
            ..self.counts
        };
        proof {
            reveal(counts_exact);
            assert forall|count: BundleCount| #[trigger]
                counts.of(count) == bundles_in(self@.slots.entries, count).len() by {
                assert(counts.of(count) == self.counts.of(count));
            }
        }
        counts
    }

    /// How many bundles count as what. The count of live bundles follows the
    /// permits that are left, which others may hold too.
    pub fn admission_snapshot(&self) -> (counts: ConnectionStateCountSnapshot)
        requires
            self.wf(),
        ensures
            counts.live <= self@.slots.capacity,
            Self::counted(self@, counts),
    {
        self.count_bundles(available_permits(&self.admission))
    }

    pub fn live(&self) -> (count: usize)
        requires
            self.wf(),
        ensures
            count == self@.slots.entries.dom().len(),
    {
        self.slots.live()
    }

    /// The tokens among `tokens` that name a connection, in order.
    fn keep_connected(&self, tokens: Vec<SlotToken>) -> (kept: Vec<ConnectionToken>)
        requires
            self.wf(),
        ensures
            kept@ == tokens@.filter(|token: SlotToken| self@.connected(token)),
    {
        let mut kept: Vec<ConnectionToken> = Vec::new();
        let mut next: usize = 0;
        let ghost wanted = |token: SlotToken| self@.connected(token);
        while next < tokens.len()
            invariant
                self.wf(),
                next <= tokens.len(),
                wanted == (|token: SlotToken| self@.connected(token)),
                kept@ == tokens@.take(next as int).filter(wanted),
            decreases tokens.len() - next,
        {
            let token = tokens[next];
            proof {
                reveal(Seq::filter);
                assert(tokens@.take(next as int + 1).drop_last() =~= tokens@.take(next as int));
            }
            if self.connection(token).is_some() {
                kept.push(token);
            }
            next = next + 1;
        }
        assert(tokens@.take(next as int) =~= tokens@);
        kept
    }

    /// The tokens of all connections, in slot order.
    pub fn occupied(&self) -> (tokens: Vec<ConnectionToken>)
        requires
            self.wf(),
        ensures
            tokens@ == self@.slots.occupied_between(0, self@.slots.marks.len() as int).filter(
                |token: SlotToken| self@.connected(token),
            ),
    {
        let tokens = self.slots.occupied_tokens();
        self.keep_connected(tokens)
    }

    /// The tokens of the connections from slot `start` on, looking at no more than `budget` slots.
    ///
    /// Returns the tokens, the slot to go on from, whether the end was reached,
    /// and how many slots were looked at.
    pub fn scan_occupied(&self, start: usize, budget: usize) -> (scan: (
        Vec<ConnectionToken>,
        usize,
        bool,
        usize,
    ))
        requires
            self.wf(),
        ensures
            scan.3 == self@.slots.scanned(start as int, budget as int),
            scan.1 == start + scan.3,
            scan.2 <==> scan.1 >= self@.slots.marks.len(),
            scan.0@ == self@.slots.occupied_between(start as int, scan.1 as int).filter(
                |token: SlotToken| self@.connected(token),
            ),
    {
        let (tokens, next, complete, scanned): (Vec<SlotToken>, usize, bool, usize) =
            self.slots.scan_occupied_tokens(start, budget);
        (self.keep_connected(tokens), next, complete, scanned)
    }

    /// The tokens among `tokens` that name an outbound route, in order.
    fn keep_outbound(&self, tokens: Vec<SlotToken>) -> (kept: Vec<ConnectionToken>)
        requires
            self.wf(),
        ensures
            kept@ == tokens@.filter(|token: SlotToken| self@.outbound(token)),
    {
        let mut kept: Vec<ConnectionToken> = Vec::new();
        let mut next: usize = 0;
        let ghost wanted = |token: SlotToken| self@.outbound(token);
        while next < tokens.len()
            invariant
                self.wf(),
                next <= tokens.len(),
                wanted == (|token: SlotToken| self@.outbound(token)),
                kept@ == tokens@.take(next as int).filter(wanted),
            decreases tokens.len() - next,
        {
            let token = tokens[next];
            proof {
                reveal(Seq::filter);
                assert(tokens@.take(next as int + 1).drop_last() =~= tokens@.take(next as int));
            }
            if self.outbound_route(token).is_some() {
                kept.push(token);
            }
            next = next + 1;
        }
        assert(tokens@.take(next as int) =~= tokens@);
        kept
    }

    /// The tokens of all outbound routes, in slot order.
    pub fn outbound_routes(&self) -> (tokens: Vec<ConnectionToken>)
        requires
            self.wf(),
        ensures
            tokens@ == self@.slots.occupied_between(0, self@.slots.marks.len() as int).filter(
                |token: SlotToken| self@.outbound(token),
            ),
    {
        let tokens = self.slots.occupied_tokens();
        self.keep_outbound(tokens)
    }

    /// The tokens of the outbound routes from slot `start` on, looking at no more
    /// than `budget` slots. Where no entry has a route, the scan ends at once.
    pub fn scan_outbound_routes(&self, start: usize, budget: usize) -> (scan: (
        Vec<ConnectionToken>,
        usize,
        bool,
        usize,
    ))
        requires
            self.wf(),
        ensures
            self@.routed().len() == 0 ==> scan.0@.len() == 0 && scan.1 == start && scan.2
                && scan.3 == 0,
            self@.routed().len() != 0 ==> {
                &&& scan.3 == self@.slots.scanned(start as int, budget as int)
                &&& scan.1 == start + scan.3
                &&& scan.2 <==> scan.1 >= self@.slots.marks.len()
                &&& scan.0@ == self@.slots.occupied_between(start as int, scan.1 as int).filter(
                    |token: SlotToken| self@.outbound(token),
                )
            },
    {
        if self.route_count == 0 {
            return (Vec::new(), start, true, 0);
        }
        let (tokens, next, complete, scanned): (Vec<SlotToken>, usize, bool, usize) =
            self.slots.scan_occupied_tokens(start, budget);
        (self.keep_outbound(tokens), next, complete, scanned)
    }
}

/// Changing an entry keeps the queue-pair index exact, as long as its connection keeps
/// its number.
pub proof fn changed_entries_keep_the_index_exact(
    view: RegistryView,
    token: ConnectionToken,
    entry: ConnectionEntry,
)
    requires
        view.index_exact(),
        view.connected(token) ==> entry.connection is Some && entry.connection->0.qp_num
            == view.connection(token).qp_num,
    ensures
        view.set(token, entry).index_exact(),
{
}

/// Attaching a connection keeps the queue-pair index exact: its number leads to it, and
/// no number changes its owner.
pub proof fn attached_connections_keep_the_index_exact(
    view: RegistryView,
    token: ConnectionToken,
    connection: ConnectionState,
)
    requires
        view.index_exact(),
        ConnectionRegistry::attach_refusal(view, token, connection.qp_num) is None,
    ensures
        ({
            let after = RegistryView {
                qp_index: view.qp_index.insert(connection.qp_num, token),
                ..view.set_connection(token, connection)
            };
            &&& after.index_exact()
            &&& ConnectionRegistry::live_io(after, token, connection.qp_num)
            &&& forall|qp_num: u32| #[trigger]
                view.qp_index.contains_key(qp_num) ==> after.qp_index[qp_num]
                    == view.qp_index[qp_num]
        }),
{
}

/// Taking a connection out keeps the queue-pair index exact, and nothing proves the
/// connection live any more: evidence cannot outlive the entry.
pub proof fn released_connections_leave_no_live_evidence(
    view: RegistryView,
    token: ConnectionToken,
)
    requires
        view.index_exact(),
        view.connected(token),
        view.qp_index.contains_key(view.connection(token).qp_num),
        view.qp_index[view.connection(token).qp_num] == token,
    ensures
        ({
            let qp_num = view.connection(token).qp_num;
            let after = RegistryView {
                qp_index: view.qp_index.remove(qp_num),
                ..ConnectionRegistry::without(view, token, true)
            };
            &&& after.index_exact()
            &&& !after.qp_index.contains_key(qp_num)
            &&& forall|number: u32| !ConnectionRegistry::live_io(after, token, number)
        }),
{
    let qp_num = view.connection(token).qp_num;
    let after = RegistryView {
        qp_index: view.qp_index.remove(qp_num),
        ..ConnectionRegistry::without(view, token, true)
    };
    assert forall|number: u32| #[trigger] after.qp_index.contains_key(number) implies {
        &&& after.connected(after.qp_index[number])
        &&& after.connection(after.qp_index[number]).qp_num == number
    } by {
        assert(view.qp_index.contains_key(number));
        assert(after.qp_index[number] == view.qp_index[number]);
    }
}

/// One queue-pair number has one owner: two entries that are both proven live on it are
/// one entry.
pub proof fn a_queue_pair_has_one_owner(
    view: RegistryView,
    a: ConnectionToken,
    b: ConnectionToken,
    qp_num: u32,
)
    requires
        ConnectionRegistry::live_io(view, a, qp_num),
        ConnectionRegistry::live_io(view, b, qp_num),
    ensures
        a == b,
{
}

/// A route takes one queue pair: a second one is refused.
pub proof fn a_route_takes_one_queue_pair(
    view: RegistryView,
    token: ConnectionToken,
    first: ConnectionState,
    second: u32,
)
    requires
        ConnectionRegistry::attach_refusal(view, token, first.qp_num) is None,
    ensures
        ConnectionRegistry::attach_refusal(
            RegistryView {
                qp_index: view.qp_index.insert(first.qp_num, token),
                ..view.set_connection(token, first)
            },
            token,
            second,
        ) is Some,
{
}

/// A close begins once.
pub proof fn a_close_begins_once(entry: ConnectionEntry)
    requires
        ConnectionRegistry::closable(entry),
    ensures
        !ConnectionRegistry::closable(ConnectionRegistry::closed(entry)),
        ConnectionRegistry::closed(entry).close_started(),
{
}

/// Lifting the quarantine of a bundle gives back the entry that it was put on, if no
/// operation of it is quarantined and its queue pair is counted exactly while it lives.
pub proof fn clearing_undoes_a_quarantine(entry: ConnectionEntry)
    requires
        entry.quarantine is None,
        !(entry.lifecycle is Retired),
        entry.connection is Some,
        entry.connection->0.io_ledger.quarantined@.len() == 0,
        entry.connection->0.admission matches Some(reservation) ==> (
        reservation.state is Established || reservation.state is Draining)
            && reservation.qp_counted == !entry.connection->0.qp_destroyed,
    ensures
        ConnectionRegistry::bundle_cleared(entry.bundle_quarantined()) == entry,
{
}

} // verus!
