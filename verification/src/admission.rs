//! Connection admission: one permit for each connection bundle, and what the
//! holder of a permit counts as.

use vstd::prelude::*;

use std::sync::Arc;
use tokio::sync::{OwnedSemaphorePermit, Semaphore};

verus! {

/// `tokio::sync::Semaphore`, carried but not looked into.
#[verifier::external_type_specification]
#[verifier::external_body]
pub struct ExSemaphore(tokio::sync::Semaphore);

/// `tokio::sync::OwnedSemaphorePermit`, carried but not looked into.
#[verifier::external_type_specification]
#[verifier::external_body]
pub struct ExOwnedSemaphorePermit(tokio::sync::OwnedSemaphorePermit);

/// The most permits that a semaphore may be made with: the smallest value that
/// `Semaphore::MAX_PERMITS` has on any supported machine.
pub const MAX_PERMITS: usize = 0x1fff_ffff;

/// How many permits a semaphore was made with. How many of them are free changes, and
/// is not named.
pub uninterp spec fn permits_made(semaphore: Semaphore) -> nat;

/// The semaphore that a permit was taken from, and goes back to.
pub uninterp spec fn permit_source(permit: OwnedSemaphorePermit) -> Semaphore;

/// Calls `tokio::sync::Semaphore::new`, which panics above its `MAX_PERMITS`
/// (an eighth of the range of `usize`). The semaphore starts with that many permits.
#[verifier::external_body]
pub(crate) fn new_semaphore(permits: usize) -> (semaphore: Arc<Semaphore>)
    requires
        permits <= MAX_PERMITS,
    ensures
        permits_made(*semaphore) == permits,
{
    Arc::new(Semaphore::new(permits))
}

/// Calls `tokio::sync::Semaphore::try_acquire_owned`, which hands out one permit
/// if one is free and the semaphore is open. The permit holds the semaphore that it
/// came from. Other holders share the semaphore, so nothing is claimed of which outcome
/// comes.
#[verifier::external_body]
pub(crate) fn try_acquire(semaphore: &Arc<Semaphore>) -> (permit: Option<OwnedSemaphorePermit>)
    ensures
        permit matches Some(held) ==> permit_source(held) == **semaphore,
{
    Arc::clone(semaphore).try_acquire_owned().ok()
}

/// Calls `tokio::sync::Semaphore::available_permits`. Other holders share the
/// semaphore, so nothing is claimed of the count.
#[verifier::external_body]
pub(crate) fn available_permits(semaphore: &Arc<Semaphore>) -> (free: usize) {
    semaphore.available_permits()
}

/// Calls `tokio::sync::Semaphore::close`, after which no permit is handed out.
#[verifier::external_body]
pub(crate) fn close_semaphore(semaphore: &Arc<Semaphore>) {
    semaphore.close();
}

/// What the holder of an admission permit counts as.
#[derive(Clone, Copy, Debug, PartialEq, Eq, Structural)]
pub enum ReservationState {
    Establishing,
    Established,
    Draining,
    QuarantinedEstablishing,
    QuarantinedEstablished,
    QuarantinedDraining,
}

impl ReservationState {
    pub open spec fn is_quarantined(self) -> bool {
        self is QuarantinedEstablishing || self is QuarantinedEstablished
            || self is QuarantinedDraining
    }

    /// The state that a quarantine of this one has.
    pub open spec fn quarantined(self) -> ReservationState {
        match self {
            ReservationState::Establishing => ReservationState::QuarantinedEstablishing,
            ReservationState::Established => ReservationState::QuarantinedEstablished,
            ReservationState::Draining => ReservationState::QuarantinedDraining,
            other => other,
        }
    }

    /// The state that recovering this one leads to. A bundle that was
    /// quarantined before it had a queue pair does not recover.
    pub open spec fn recovered(self) -> ReservationState {
        match self {
            ReservationState::QuarantinedEstablished => ReservationState::Established,
            ReservationState::QuarantinedDraining => ReservationState::Draining,
            other => other,
        }
    }

    pub open spec fn draining(self) -> ReservationState {
        match self {
            ReservationState::Established => ReservationState::Draining,
            ReservationState::QuarantinedEstablished => ReservationState::QuarantinedDraining,
            other => other,
        }
    }

    pub open spec fn rolled_back(self) -> ReservationState {
        match self {
            ReservationState::Draining => ReservationState::Established,
            ReservationState::QuarantinedDraining => ReservationState::QuarantinedEstablished,
            other => other,
        }
    }
}

/// How many connection bundles count as what.
#[derive(Clone, Copy, Debug, PartialEq, Eq, Structural)]
pub struct ConnectionStateCountSnapshot {
    pub live: usize,
    pub establishing: usize,
    pub established: usize,
    pub draining: usize,
    pub registered_live_qps: usize,
    pub quarantined_bundles: usize,
}

impl Default for ConnectionStateCountSnapshot {
    fn default() -> (counts: Self)
        ensures
            counts == (ConnectionStateCountSnapshot {
                live: 0,
                establishing: 0,
                established: 0,
                draining: 0,
                registered_live_qps: 0,
                quarantined_bundles: 0,
            }),
    {
        ConnectionStateCountSnapshot {
            live: 0,
            establishing: 0,
            established: 0,
            draining: 0,
            registered_live_qps: 0,
            quarantined_bundles: 0,
        }
    }
}

/// What a bundle is counted by: the state of its admission, and whether its queue pair
/// counts as live.
#[derive(Clone, Copy, Debug, PartialEq, Eq, Structural)]
pub struct BundleMark {
    pub state: ReservationState,
    pub qp_counted: bool,
}

/// The counts that bundles go into.
#[derive(Clone, Copy, Debug, PartialEq, Eq, Structural)]
pub enum BundleCount {
    Establishing,
    Established,
    Draining,
    LiveQueuePair,
    Quarantined,
}

/// Whether a bundle goes into a count. One that was draining when it was quarantined
/// goes into both.
pub open spec fn counts_in(mark: Option<BundleMark>, count: BundleCount) -> bool {
    match mark {
        Some(mark) => match count {
            BundleCount::Establishing => mark.state is Establishing,
            BundleCount::Established => mark.state is Established,
            BundleCount::Draining => mark.state is Draining || mark.state is QuarantinedDraining,
            BundleCount::LiveQueuePair => mark.qp_counted,
            BundleCount::Quarantined => mark.state.is_quarantined(),
        },
        None => false,
    }
}

/// One for a bundle that goes into a count, else none.
pub open spec fn share(mark: Option<BundleMark>, count: BundleCount) -> int {
    if counts_in(mark, count) {
        1
    } else {
        0
    }
}

impl ConnectionStateCountSnapshot {
    pub open spec fn of(self, count: BundleCount) -> usize {
        match count {
            BundleCount::Establishing => self.establishing,
            BundleCount::Established => self.established,
            BundleCount::Draining => self.draining,
            BundleCount::LiveQueuePair => self.registered_live_qps,
            BundleCount::Quarantined => self.quarantined_bundles,
        }
    }

    /// Whether `after` are the counts once a bundle that was counted by `from` is
    /// counted by `to`.
    pub open spec fn moved(
        self,
        after: ConnectionStateCountSnapshot,
        from: Option<BundleMark>,
        to: Option<BundleMark>,
    ) -> bool {
        &&& after.live == self.live
        &&& forall|count: BundleCount| #[trigger]
            after.of(count) == self.of(count) - share(from, count) + share(to, count)
    }

    fn withdraw(&mut self, mark: BundleMark)
        requires
            forall|count: BundleCount|
                counts_in(Some(mark), count) ==> #[trigger] old(self).of(count) > 0,
        ensures
            old(self).moved(*final(self), Some(mark), None),
    {
        assert(old(self).of(BundleCount::Establishing) == self.establishing);
        assert(old(self).of(BundleCount::Established) == self.established);
        assert(old(self).of(BundleCount::Draining) == self.draining);
        assert(old(self).of(BundleCount::LiveQueuePair) == self.registered_live_qps);
        assert(old(self).of(BundleCount::Quarantined) == self.quarantined_bundles);
        match mark.state {
            ReservationState::Establishing => {
                self.establishing = self.establishing - 1;
            },
            ReservationState::Established => {
                self.established = self.established - 1;
            },
            ReservationState::Draining => {
                self.draining = self.draining - 1;
            },
            ReservationState::QuarantinedEstablishing
            | ReservationState::QuarantinedEstablished
            | ReservationState::QuarantinedDraining => {
                self.quarantined_bundles = self.quarantined_bundles - 1;
            },
        }
        if let ReservationState::QuarantinedDraining = mark.state {
            self.draining = self.draining - 1;
        }
        if mark.qp_counted {
            self.registered_live_qps = self.registered_live_qps - 1;
        }
    }

    fn enter(&mut self, mark: BundleMark)
        requires
            forall|count: BundleCount|
                counts_in(Some(mark), count) ==> #[trigger] old(self).of(count) < usize::MAX,
        ensures
            old(self).moved(*final(self), None, Some(mark)),
    {
        assert(old(self).of(BundleCount::Establishing) == self.establishing);
        assert(old(self).of(BundleCount::Established) == self.established);
        assert(old(self).of(BundleCount::Draining) == self.draining);
        assert(old(self).of(BundleCount::LiveQueuePair) == self.registered_live_qps);
        assert(old(self).of(BundleCount::Quarantined) == self.quarantined_bundles);
        match mark.state {
            ReservationState::Establishing => {
                self.establishing = self.establishing + 1;
            },
            ReservationState::Established => {
                self.established = self.established + 1;
            },
            ReservationState::Draining => {
                self.draining = self.draining + 1;
            },
            ReservationState::QuarantinedEstablishing
            | ReservationState::QuarantinedEstablished
            | ReservationState::QuarantinedDraining => {
                self.quarantined_bundles = self.quarantined_bundles + 1;
            },
        }
        if let ReservationState::QuarantinedDraining = mark.state {
            self.draining = self.draining + 1;
        }
        if mark.qp_counted {
            self.registered_live_qps = self.registered_live_qps + 1;
        }
    }

    /// Counts a bundle by `to` that was counted by `from`.
    pub fn recount(&mut self, from: Option<BundleMark>, to: Option<BundleMark>)
        requires
            forall|count: BundleCount|
                counts_in(from, count) ==> #[trigger] old(self).of(count) > 0,
            forall|count: BundleCount|
                counts_in(to, count) && !counts_in(from, count) ==> #[trigger] old(self).of(count)
                    < usize::MAX,
        ensures
            old(self).moved(*final(self), from, to),
    {
        if let Some(mark) = from {
            self.withdraw(mark);
        }
        assert(old(self).moved(*self, from, None));
        if let Some(mark) = to {
            let ghost lowered = *self;
            assert forall|count: BundleCount| counts_in(Some(mark), count) implies
                #[trigger] lowered.of(count) < usize::MAX by {
                assert(old(self).of(count) <= usize::MAX);
            }
            self.enter(mark);
            assert forall|count: BundleCount| #[trigger]
                self.of(count) == old(self).of(count) - share(from, count) + share(to, count) by {
                assert(lowered.of(count) == old(self).of(count) - share(from, count));
            }
        }
    }
}

/// The admission of one connection bundle. The permit goes back when this is dropped.
pub struct ConnectionReservation {
    pub permit: OwnedSemaphorePermit,
    pub state: ReservationState,
    pub qp_counted: bool,
}

impl ConnectionReservation {
    /// Whether this is a place that nothing was built on yet.
    pub open spec fn is_fresh(self) -> bool {
        self.state is Establishing && !self.qp_counted
    }

    pub fn new(permit: OwnedSemaphorePermit) -> (reservation: Self)
        ensures
            reservation == (ConnectionReservation {
                permit,
                state: ReservationState::Establishing,
                qp_counted: false,
            }),
    {
        ConnectionReservation { permit, state: ReservationState::Establishing, qp_counted: false }
    }

    /// What asking for a place gives, once it is known whether a permit was free: a
    /// permit that was handed out always makes a reservation, and nothing else does.
    pub fn from_permit(permit: Option<OwnedSemaphorePermit>) -> (reservation: Option<Self>)
        ensures
            reservation == match permit {
                Some(permit) => Some(
                    ConnectionReservation {
                        permit,
                        state: ReservationState::Establishing,
                        qp_counted: false,
                    },
                ),
                None => None,
            },
    {
        match permit {
            Some(permit) => Some(ConnectionReservation::new(permit)),
            None => None,
        }
    }

    pub fn state(&self) -> (state: ReservationState)
        ensures
            state == self.state,
    {
        self.state
    }

    /// What this bundle is counted by.
    pub open spec fn marked(self) -> BundleMark {
        BundleMark { state: self.state, qp_counted: self.qp_counted }
    }

    pub fn mark(&self) -> (mark: BundleMark)
        ensures
            mark == self.marked(),
    {
        BundleMark { state: self.state, qp_counted: self.qp_counted }
    }

    /// Counts this bundle.
    pub fn contribute(&self, counts: &mut ConnectionStateCountSnapshot)
        requires
            forall|count: BundleCount|
                counts_in(Some(self.marked()), count) ==> #[trigger] old(counts).of(count)
                    < usize::MAX,
        ensures
            old(counts).moved(*final(counts), None, Some(self.marked())),
    {
        counts.recount(None, Some(self.mark()));
    }

    /// The reservation after its queue pair was registered.
    pub open spec fn registered(self) -> ConnectionReservation {
        if self.state is Establishing {
            ConnectionReservation {
                state: ReservationState::Established,
                qp_counted: true,
                ..self
            }
        } else {
            self
        }
    }

    /// The reservation after its bundle was quarantined.
    pub open spec fn quarantined(self) -> ConnectionReservation {
        ConnectionReservation { state: self.state.quarantined(), qp_counted: false, ..self }
    }

    /// The reservation after its quarantine was lifted.
    pub open spec fn recovered(self, qp_is_live: bool) -> ConnectionReservation {
        ConnectionReservation {
            state: self.state.recovered(),
            qp_counted: if self.state.recovered() != self.state {
                qp_is_live
            } else {
                self.qp_counted
            },
            ..self
        }
    }

    pub fn mark_registered(&mut self)
        ensures
            *final(self) == old(self).registered(),
    {
        if let ReservationState::Establishing = self.state {
            self.state = ReservationState::Established;
            self.qp_counted = true;
        }
    }

    pub fn mark_draining(&mut self)
        ensures
            *final(self) == (ConnectionReservation {
                state: old(self).state.draining(),
                ..*old(self)
            }),
    {
        match self.state {
            ReservationState::Established => {
                self.state = ReservationState::Draining;
            },
            ReservationState::QuarantinedEstablished => {
                self.state = ReservationState::QuarantinedDraining;
            },
            _ => {},
        }
    }

    pub fn rollback_draining(&mut self)
        ensures
            *final(self) == (ConnectionReservation {
                state: old(self).state.rolled_back(),
                ..*old(self)
            }),
    {
        match self.state {
            ReservationState::Draining => {
                self.state = ReservationState::Established;
            },
            ReservationState::QuarantinedDraining => {
                self.state = ReservationState::QuarantinedEstablished;
            },
            _ => {},
        }
    }

    pub fn mark_quarantined(&mut self)
        ensures
            *final(self) == old(self).quarantined(),
    {
        match self.state {
            ReservationState::Establishing => {
                self.state = ReservationState::QuarantinedEstablishing;
            },
            ReservationState::Established => {
                self.state = ReservationState::QuarantinedEstablished;
            },
            ReservationState::Draining => {
                self.state = ReservationState::QuarantinedDraining;
            },
            _ => {},
        }
        self.qp_counted = false;
    }

    pub fn recover_quarantine(&mut self, qp_is_live: bool)
        ensures
            *final(self) == old(self).recovered(qp_is_live),
    {
        match self.state {
            ReservationState::QuarantinedEstablished => {
                self.state = ReservationState::Established;
                self.qp_counted = qp_is_live;
            },
            ReservationState::QuarantinedDraining => {
                self.state = ReservationState::Draining;
                self.qp_counted = qp_is_live;
            },
            _ => {},
        }
    }

    pub fn mark_qp_destroyed(&mut self)
        ensures
            *final(self) == (ConnectionReservation { qp_counted: false, ..*old(self) }),
    {
        self.qp_counted = false;
    }

    /// Quarantines a bundle whose setup could not be undone; true when it was not
    /// quarantined before.
    pub fn retain_setup_quarantine(&mut self) -> (newly: bool)
        ensures
            newly == !old(self).state.is_quarantined(),
            *final(self) == old(self).quarantined(),
    {
        let newly: bool = match self.state {
            ReservationState::QuarantinedEstablishing
            | ReservationState::QuarantinedEstablished
            | ReservationState::QuarantinedDraining => false,
            _ => true,
        };
        self.mark_quarantined();
        newly
    }
}

/// Lifting a quarantine undoes it, for a bundle that had its queue pair registered.
pub proof fn recovery_undoes_quarantine(reservation: ConnectionReservation)
    requires
        reservation.state is Established || reservation.state is Draining,
    ensures
        reservation.quarantined().recovered(reservation.qp_counted) == reservation,
{
}

/// Rolling a drain back undoes it.
pub proof fn rollback_undoes_draining(state: ReservationState)
    requires
        state is Established || state is QuarantinedEstablished,
    ensures
        state.draining().rolled_back() == state,
{
}

} // verus!
