//! Turns of connection-manager work: queued work, events and their registration.

use vstd::prelude::*;

use crate::accept::{look_for_work, work_looked_for};
use crate::actions::{ReactorActions, CM_STEP_RESERVE};
use crate::admission::ConnectionReservation;
use crate::cm::{CmSoftwareClass, CmView};
use crate::error::Error;
use crate::event::{
    counted, record_cm_reject, CmDispatchRoute, CmEventType, EventDisposition, PendingCmEvent,
};
use crate::listener::ListenerView;
use crate::registry::RegistryView;
use crate::routes::InboundRejectReason;
use crate::tables::{SessionTables, TablesView};
use crate::token::{CmRouteToken, ConnectionToken, ListenerToken, RequestToken};

verus! {

/// One piece of queued work.
pub enum SoftwareWork {
    /// Cancel a connect.
    Cancellation(RequestToken),
    /// Retire a connection.
    Retirement(ConnectionToken),
    /// Start a connect.
    OutboundStart { request: RequestToken, reservation: ConnectionReservation },
    /// Start a listener.
    ListenStart { listener: ListenerToken, request: RequestToken },
    /// Serve a listener.
    ListenerWork(ListenerToken),
}

/// Whether a turn of connection-manager work may begin another step.
pub open spec fn may_step(processed: usize, budget: usize, room: nat) -> bool {
    processed < budget && room >= CM_STEP_RESERVE
}

/// What the next piece of a kind of queued work is, and what taking it leaves.
pub open spec fn work_taken(
    before: TablesView,
    after: TablesView,
    class: CmSoftwareClass,
    has_resources: bool,
    work: Result<Option<SoftwareWork>, Error>,
) -> bool {
    let connections = before.connections;
    let cm = before.cm;
    match class {
        CmSoftwareClass::Cancellation => if connections.cancellations.len() > 0 {
            &&& work == Ok::<Option<SoftwareWork>, Error>(
                Some(SoftwareWork::Cancellation(connections.cancellations[0])),
            )
            &&& after == (TablesView {
                connections: RegistryView {
                    cancellations: connections.cancellations.drop_first(),
                    ..connections
                },
                ..before
            })
        } else {
            work == Ok::<Option<SoftwareWork>, Error>(None) && after == before
        },
        CmSoftwareClass::Retirement => if connections.retirements.len() > 0 {
            &&& work == Ok::<Option<SoftwareWork>, Error>(
                Some(SoftwareWork::Retirement(connections.retirements[0])),
            )
            &&& after == (TablesView {
                connections: RegistryView {
                    retirements: connections.retirements.drop_first(),
                    ..connections
                },
                ..before
            })
        } else {
            work == Ok::<Option<SoftwareWork>, Error>(None) && after == before
        },
        CmSoftwareClass::OutboundStart => if !has_resources {
            &&& work matches Err(error) && error.is_invalid_config(
                "CM pending work requires live engine resources"@,
            )
            &&& after == before
        } else if connections.pending_outbound.len() > 0 && !connections.setup_active {
            let (request, reservation) = connections.pending_outbound[0];
            &&& work == Ok::<Option<SoftwareWork>, Error>(
                Some(SoftwareWork::OutboundStart { request, reservation }),
            )
            &&& after == (TablesView {
                connections: RegistryView {
                    pending_outbound: connections.pending_outbound.drop_first(),
                    setup_active: true,
                    ..connections
                },
                ..before
            })
        } else {
            work == Ok::<Option<SoftwareWork>, Error>(None) && after == before
        },
        CmSoftwareClass::ListenStart => if !has_resources {
            &&& work matches Err(error) && error.is_invalid_config(
                "listener creation requires live engine resources"@,
            )
            &&& after == before
        } else if cm.pending_listens.len() > 0 {
            let (listener, request) = cm.pending_listens[0];
            &&& work == Ok::<Option<SoftwareWork>, Error>(
                Some(SoftwareWork::ListenStart { listener, request }),
            )
            &&& after == (TablesView {
                cm: CmView { pending_listens: cm.pending_listens.drop_first(), ..cm },
                ..before
            })
        } else {
            work == Ok::<Option<SoftwareWork>, Error>(None) && after == before
        },
        CmSoftwareClass::ListenerWork => if !has_resources {
            &&& work matches Err(error) && error.is_invalid_config(
                "listener progress requires live engine resources"@,
            )
            &&& after == before
        } else if cm.listener_work.len() > 0 {
            let listener = cm.listener_work[0];
            &&& work == Ok::<Option<SoftwareWork>, Error>(
                Some(SoftwareWork::ListenerWork(listener)),
            )
            &&& after == (TablesView {
                cm: CmView {
                    listener_work: cm.listener_work.drop_first(),
                    listeners: after.cm.listeners,
                    ..cm
                },
                ..before
            })
            &&& if cm.listeners.has(listener) {
                cm.listeners.becomes(
                    after.cm.listeners,
                    listener,
                    ListenerView { work_enqueued: false, ..cm.listeners.entry(listener)@ },
                )
            } else {
                after.cm.listeners == cm.listeners
            }
        } else {
            work == Ok::<Option<SoftwareWork>, Error>(None) && after == before
        },
    }
}

/// Takes the next piece of a kind of queued work, while the budget lasts and there is
/// room for what it publishes. One connect is set up at a time.
pub fn next_software_work(
    tables: &mut SessionTables,
    class: CmSoftwareClass,
    processed: usize,
    budget: usize,
    has_resources: bool,
    actions: &ReactorActions,
) -> (work: Result<Option<SoftwareWork>, Error>)
    requires
        old(tables).wf(),
    ensures
        final(tables).wf(),
        if may_step(processed, budget, actions.room()) {
            work_taken(old(tables)@, final(tables)@, class, has_resources, work)
        } else {
            work == Ok::<Option<SoftwareWork>, Error>(None) && final(tables)@ == old(tables)@
        },
{
    if processed >= budget || !actions.can_accept(CM_STEP_RESERVE) {
        return Ok(None);
    }
    match class {
        CmSoftwareClass::Cancellation => match tables.connections.pop_cancellation() {
            Some(request) => Ok(Some(SoftwareWork::Cancellation(request))),
            None => Ok(None),
        },
        CmSoftwareClass::Retirement => match tables.connections.pop_retirement() {
            Some(token) => Ok(Some(SoftwareWork::Retirement(token))),
            None => Ok(None),
        },
        CmSoftwareClass::OutboundStart => {
            if !has_resources {
                return Err(Error::invalid("CM pending work requires live engine resources"));
            }
            match tables.connections.pop_outbound() {
                Some((request, reservation)) => {
                    if !tables.connections.try_begin_outbound_setup() {
                        tables.connections.push_front_outbound(request, reservation);
                        assert(tables@.connections.pending_outbound
                            =~= old(tables)@.connections.pending_outbound);
                        return Ok(None);
                    }
                    Ok(Some(SoftwareWork::OutboundStart { request, reservation }))
                },
                None => Ok(None),
            }
        },
        CmSoftwareClass::ListenStart => {
            if !has_resources {
                return Err(Error::invalid("listener creation requires live engine resources"));
            }
            match tables.cm.pending_listens.pop_front() {
                Some((listener, request)) => {
                    assert(tables.cm@.pending_listens
                        =~= old(tables)@.cm.pending_listens.drop_first());
                    Ok(Some(SoftwareWork::ListenStart { listener, request }))
                },
                None => Ok(None),
            }
        },
        CmSoftwareClass::ListenerWork => {
            if !has_resources {
                return Err(Error::invalid("listener progress requires live engine resources"));
            }
            match tables.cm.listener_work.pop_front() {
                Some(listener) => {
                    assert(tables.cm@.listener_work
                        =~= old(tables)@.cm.listener_work.drop_first());
                    if let Some(entry) = tables.cm.listeners.get_mut(listener) {
                        entry.begin_work();
                    }
                    Ok(Some(SoftwareWork::ListenerWork(listener)))
                },
                None => Ok(None),
            }
        },
    }
}

/// Ends the start of a connect: one that did not get under way frees the one turn of
/// outbound setup.
pub fn outbound_start_finished(tables: &mut SessionTables, started: bool)
    requires
        old(tables).wf(),
    ensures
        final(tables).wf(),
        final(tables)@ == if started {
            old(tables)@
        } else {
            TablesView {
                connections: RegistryView { setup_active: false, ..old(tables)@.connections },
                ..old(tables)@
            }
        },
{
    if !started {
        tables.connections.finish_outbound_setup();
    }
}

/// Ends the turn of a listener: it is queued again, if it has more work.
pub fn listener_turn_finished(tables: &mut SessionTables, listener: ListenerToken)
    requires
        old(tables).wf(),
    ensures
        final(tables).wf(),
        final(tables)@ == (TablesView { cm: final(tables)@.cm, ..old(tables)@ }),
        work_looked_for(old(tables)@.cm, final(tables)@.cm, old(tables)@.accepts, listener),
{
    look_for_work(&mut tables.cm, &tables.accepts, listener);
}

/// Who serves an event.
#[derive(Clone, Copy, Debug, PartialEq, Eq, Structural)]
pub enum EventService {
    /// Nobody; the child with this raw number, if it is not 0, is rejected.
    Nobody { raw_id: u64, reason: InboundRejectReason },
    Outbound(CmRouteToken),
    Inbound(CmRouteToken),
    ConnectRequest(ListenerToken),
    ListenerEvent(ListenerToken),
}

/// Decides who serves an event that was read. One that nobody serves is counted; the
/// child of a connection request for nobody is still rejected.
pub fn dispatch_event(rejected: &mut u64, pending: PendingCmEvent) -> (service: EventService)
    ensures
        service == match pending.route {
            Err(_) => EventService::Nobody {
                raw_id: if pending.snapshot.event_type is ConnectRequest {
                    pending.snapshot.id
                } else {
                    0
                },
                reason: InboundRejectReason::ListenerClosed,
            },
            Ok(CmDispatchRoute::Outbound(token)) => EventService::Outbound(token),
            Ok(CmDispatchRoute::Inbound(token)) => EventService::Inbound(token),
            Ok(CmDispatchRoute::Listener(listener)) => if pending.snapshot.event_type
                is ConnectRequest {
                EventService::ConnectRequest(listener)
            } else {
                EventService::ListenerEvent(listener)
            },
        },
        *final(rejected) == match pending.route {
            Err(reject) => counted(*old(rejected), reject),
            Ok(_) => *old(rejected),
        },
{
    match pending.route {
        Err(reject) => {
            record_cm_reject(rejected, reject);
            let raw_id: u64 = if pending.snapshot.event_type == CmEventType::ConnectRequest {
                pending.snapshot.id
            } else {
                0
            };
            EventService::Nobody { raw_id, reason: InboundRejectReason::ListenerClosed }
        },
        Ok(CmDispatchRoute::Outbound(token)) => EventService::Outbound(token),
        Ok(CmDispatchRoute::Inbound(token)) => EventService::Inbound(token),
        Ok(CmDispatchRoute::Listener(listener)) => {
            if pending.snapshot.event_type == CmEventType::ConnectRequest {
                EventService::ConnectRequest(listener)
            } else {
                EventService::ListenerEvent(listener)
            }
        },
    }
}

/// Takes in what became of an event: a rejected one is counted.
pub fn event_disposed(rejected: &mut u64, disposition: EventDisposition)
    ensures
        *final(rejected) == match disposition {
            EventDisposition::Rejected(reject) => counted(*old(rejected), reject),
            _ => *old(rejected),
        },
{
    if let EventDisposition::Rejected(reject) = disposition {
        record_cm_reject(rejected, reject);
    }
}

/// How a turn left the readiness of the event channel.
#[derive(Clone, Copy, Debug, PartialEq, Eq, Structural)]
pub enum ReadinessRegistration {
    /// Nothing waits for readiness.
    NotRequired,
    /// The turn ended before the channel was seen empty.
    Incomplete,
    /// A waker is registered, and the channel was looked at again afterwards.
    RegisteredAndRechecked,
}

/// What a turn of events reports.
#[derive(Clone, Copy, Debug, PartialEq, Eq, Structural)]
pub struct EventTurn {
    pub processed: usize,
    pub registration: ReadinessRegistration,
    pub drained: bool,
}

/// Whether a turn of events is over, or readiness is to be polled.
#[derive(Clone, Copy, Debug, PartialEq, Eq, Structural)]
pub enum EventTurnStep {
    Finished(EventTurn),
    PollReadiness,
}

/// Ends the events of a turn, `processed` of them having been served.
///
/// A turn whose budget or room ran out has not seen the channel empty. Only a channel
/// that readiness is awaited on is polled for it, and it needs a descriptor for that.
pub fn events_served(
    processed: usize,
    budget: usize,
    readiness: bool,
    has_descriptor: bool,
    has_resources: bool,
    actions: &ReactorActions,
) -> (result: Result<EventTurnStep, Error>)
    ensures
        if has_resources && processed != budget && actions.room() >= CM_STEP_RESERVE && readiness
            && !has_descriptor {
            result matches Err(error) && error.is_invalid_config(
                "readiness engine has no CM AsyncFd"@,
            )
        } else {
            result == Ok::<EventTurnStep, Error>(
                if !has_resources {
                    EventTurnStep::Finished(
                        EventTurn {
                            processed: 0,
                            registration: ReadinessRegistration::NotRequired,
                            drained: true,
                        },
                    )
                } else if processed == budget || actions.room() < CM_STEP_RESERVE {
                    EventTurnStep::Finished(
                        EventTurn {
                            processed,
                            registration: ReadinessRegistration::Incomplete,
                            drained: false,
                        },
                    )
                } else if !readiness {
                    EventTurnStep::Finished(
                        EventTurn {
                            processed,
                            registration: ReadinessRegistration::NotRequired,
                            drained: true,
                        },
                    )
                } else {
                    EventTurnStep::PollReadiness
                },
            )
        },
{
    if !has_resources {
        return Ok(
            EventTurnStep::Finished(
                EventTurn {
                    processed: 0,
                    registration: ReadinessRegistration::NotRequired,
                    drained: true,
                },
            ),
        );
    }
    if processed == budget || !actions.can_accept(CM_STEP_RESERVE) {
        return Ok(
            EventTurnStep::Finished(
                EventTurn {
                    processed,
                    registration: ReadinessRegistration::Incomplete,
                    drained: false,
                },
            ),
        );
    }
    if !readiness {
        return Ok(
            EventTurnStep::Finished(
                EventTurn {
                    processed,
                    registration: ReadinessRegistration::NotRequired,
                    drained: true,
                },
            ),
        );
    }
    if !has_descriptor {
        return Err(Error::invalid("readiness engine has no CM AsyncFd"));
    }
    Ok(EventTurnStep::PollReadiness)
}

/// Ends a turn of events whose channel was polled for readiness; `polled` is `None`
/// where a waker was registered and the channel stayed empty.
pub fn readiness_polled(processed: usize, polled: Option<Result<usize, Error>>) -> (result: Result<
    EventTurn,
    Error,
>)
    requires
        polled matches Some(Ok(extra)) ==> processed + extra <= usize::MAX,
    ensures
        result == match polled {
            None => Ok::<EventTurn, Error>(
                EventTurn {
                    processed,
                    registration: ReadinessRegistration::RegisteredAndRechecked,
                    drained: true,
                },
            ),
            Some(Ok(extra)) => Ok(
                EventTurn {
                    processed: (processed + extra) as usize,
                    registration: ReadinessRegistration::Incomplete,
                    drained: extra == 0,
                },
            ),
            Some(Err(error)) => Err(error),
        },
{
    match polled {
        None => Ok(
            EventTurn {
                processed,
                registration: ReadinessRegistration::RegisteredAndRechecked,
                drained: true,
            },
        ),
        Some(Ok(extra)) => Ok(
            EventTurn {
                processed: processed + extra,
                registration: ReadinessRegistration::Incomplete,
                drained: extra == 0,
            },
        ),
        Some(Err(error)) => Err(error),
    }
}

/// What polling for readiness does next.
pub enum ReadinessStep {
    /// Poll the channel for readiness.
    Poll,
    /// Try to serve one event.
    TryOne,
    /// Clear the readiness, then poll again.
    Clear,
    /// Over: nothing is ready, and a waker is registered.
    Pending,
    /// Over, with the number of events served, or an error.
    Ready(Result<usize, Error>),
}

/// Polling a channel for readiness, no more than a budget of events.
///
/// Readiness is cleared only after an event was tried for and none came, and the
/// channel is polled again afterwards: an event that arrives meanwhile is not missed.
#[derive(Clone, Copy, Debug, PartialEq, Eq, Structural)]
pub struct ReadinessPoll {
    pub budget: usize,
    pub processed: usize,
}

impl ReadinessPoll {
    pub open spec fn wf(self) -> bool {
        self.processed <= self.budget && self.budget > 0
    }

    pub fn new(budget: usize) -> (poll: (Self, ReadinessStep))
        requires
            budget > 0,
        ensures
            poll.0.wf(),
            poll.0 == (ReadinessPoll { budget, processed: 0 }),
            poll.1 == ReadinessStep::Poll,
    {
        (ReadinessPoll { budget, processed: 0 }, ReadinessStep::Poll)
    }

    /// The step before another event is tried for.
    pub open spec fn next_try(self) -> ReadinessStep {
        if self.processed == self.budget {
            ReadinessStep::Ready(Ok(self.processed))
        } else {
            ReadinessStep::TryOne
        }
    }

    /// Takes in a poll of the channel; `None` where it is not ready.
    pub fn polled(&self, ready: Option<Result<(), Error>>) -> (step: ReadinessStep)
        requires
            self.wf(),
        ensures
            step == match ready {
                Some(Ok(())) => self.next_try(),
                Some(Err(error)) => ReadinessStep::Ready(Err(error)),
                None => if self.processed == 0 {
                    ReadinessStep::Pending
                } else {
                    ReadinessStep::Ready(Ok(self.processed))
                },
            },
    {
        match ready {
            Some(Ok(())) => {
                if self.processed == self.budget {
                    ReadinessStep::Ready(Ok(self.processed))
                } else {
                    ReadinessStep::TryOne
                }
            },
            Some(Err(error)) => ReadinessStep::Ready(Err(error)),
            None => {
                if self.processed == 0 {
                    ReadinessStep::Pending
                } else {
                    ReadinessStep::Ready(Ok(self.processed))
                }
            },
        }
    }

    /// Takes in an attempt to serve one event.
    pub fn tried(&mut self, served: Result<bool, Error>) -> (step: ReadinessStep)
        requires
            old(self).wf(),
            old(self).processed < old(self).budget,
        ensures
            final(self).wf(),
            final(self).budget == old(self).budget,
            final(self).processed == old(self).processed + if served == Ok::<bool, Error>(true) {
                1int
            } else {
                0
            },
            step == match served {
                Ok(true) => final(self).next_try(),
                Ok(false) => ReadinessStep::Clear,
                Err(error) => ReadinessStep::Ready(Err(error)),
            },
    {
        match served {
            Ok(true) => {
                self.processed = self.processed + 1;
                if self.processed == self.budget {
                    ReadinessStep::Ready(Ok(self.processed))
                } else {
                    ReadinessStep::TryOne
                }
            },
            Ok(false) => ReadinessStep::Clear,
            Err(error) => ReadinessStep::Ready(Err(error)),
        }
    }

    /// Goes on after readiness was cleared.
    pub fn cleared(&self) -> (step: ReadinessStep)
        ensures
            step == ReadinessStep::Poll,
    {
        ReadinessStep::Poll
    }
}

} // verus!
