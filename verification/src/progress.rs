//! A session's turns: their beginning and end, deadlines, and the shutdown of
//! connections.

use vstd::prelude::*;

use std::collections::VecDeque;
use std::sync::Arc;

use tokio::sync::Semaphore;

use crate::actions::{Action, IoTerminalEvent, ReactorActions, CM_STEP_RESERVE, STEP_PUBLICATIONS};
use crate::cm::{CmState, CmView};
use crate::connection::ConnectionState;
use crate::deadlines::{due_by, queued, QueuedDeadline};
use crate::deadlines::{DeadlineQueue, SessionDeadline};
use crate::drain::DRAIN_RESERVE;
use crate::error::Error;
use crate::registry::{deadline_at, RegistryView};
use crate::registry::{ConnectionRegistry, DeadlineKind, DeadlineRequest};
use crate::requests::{AcceptRequest, ListenRequest, OutboundRequest};
use crate::service::may_step;
use crate::shutdown::{
    issuance_complete, limited, retained_limit, shutdown_served, CursorView, ShutdownView,
};
use crate::shutdown::{
    complete, service_class, snapshot, start, CmShutdownClass, CmShutdownCursor,
    CmShutdownSnapshot,
};
use crate::slots::{SlotRegistry, SlotsView};
use crate::tables::{SessionTables, TablesView};
use crate::terminal::{MemoizedTerminalResult, SessionCloseState};
use crate::token::{ConnectionToken, SlotToken};

verus! {

/// A session as its reactor drives it.
pub struct SessionReactorSources {
    pub tables: SessionTables,
    pub deadlines: DeadlineQueue,
    pub ready_deadlines: VecDeque<SessionDeadline>,
    pub shutdown_requested: bool,
    pub terminal_outcome: Option<MemoizedTerminalResult>,
    pub shutdown_started: bool,
    pub shutdown_cm: CmShutdownCursor,
    pub shutdown_connection_slot: usize,
    pub shutdown_connections_complete: bool,
    pub failure_scan_started: bool,
    pub terminal_completion_ready: bool,
    pub cm_budget: usize,
    pub reclamation_budget: usize,
    pub shutdown_deadline: u64,
}

/// A session, as contracts speak of it.
#[verifier::ext_equal]
pub struct SourcesView {
    pub tables: TablesView,
    pub deadlines: Seq<QueuedDeadline>,
    pub numbers_left: nat,
    pub ready: Seq<SessionDeadline>,
    pub shutdown_requested: bool,
    pub terminal_outcome: Option<MemoizedTerminalResult>,
    pub shutdown_started: bool,
    pub cursor: CursorView,
    pub connection_slot: usize,
    pub connections_complete: bool,
    pub failure_scan_started: bool,
    pub completion_ready: bool,
    pub cm_budget: usize,
    pub reclamation_budget: usize,
    pub shutdown_deadline: u64,
}

impl SourcesView {
    /// Whether the shutdown has asked everything to end.
    pub open spec fn issuance_complete(self) -> bool {
        self.shutdown_started && self.connections_complete && issuance_complete(
            self.tables.cm,
            self.tables.connections,
            self.cursor,
        )
    }

    /// Whether nothing is left of the session.
    pub open spec fn drained(self) -> bool {
        let cm = self.tables.cm;
        let connections = self.tables.connections;
        &&& connections.pending_outbound.len() == 0 && cm.pending_listens.len() == 0
        &&& connections.cancellations.len() == 0 && cm.listener_work.len() == 0
        &&& connections.retirements.len() == 0 && cm.destructions.len() == 0
        &&& cm.listeners.slots.entries.dom().len() == 0
        &&& connections.slots.entries.dom().len() == 0
    }

    /// The session once its shutdown began: a deadline bounds it.
    pub open spec fn shutdown_begun(self, now: u64) -> SourcesView {
        if self.shutdown_started {
            self
        } else {
            SourcesView {
                shutdown_started: true,
                tables: TablesView {
                    cm: CmView { shutting_down: true, ..self.tables.cm },
                    connections: RegistryView {
                        deadlines: self.tables.connections.deadlines.push(
                            DeadlineRequest {
                                at: deadline_at(now, self.shutdown_deadline),
                                kind: DeadlineKind::EngineShutdown,
                                token: 0,
                            },
                        ),
                        ..self.tables.connections
                    },
                    ..self.tables
                },
                ..self
            }
        }
    }

    /// The session once a failure began its search anew from the first slot.
    pub open spec fn failure_begun(self) -> SourcesView {
        if self.failure_scan_started {
            self
        } else {
            SourcesView {
                failure_scan_started: true,
                cursor: CmShutdownCursor::start(),
                connection_slot: 0,
                connections_complete: false,
                ..self
            }
        }
    }
}

impl SessionReactorSources {
    pub open spec fn view(&self) -> SourcesView {
        SourcesView {
            tables: self.tables@,
            deadlines: self.deadlines@,
            numbers_left: self.deadlines.numbers_left(),
            ready: self.ready_deadlines@,
            shutdown_requested: self.shutdown_requested,
            terminal_outcome: self.terminal_outcome,
            shutdown_started: self.shutdown_started,
            cursor: self.shutdown_cm@,
            connection_slot: self.shutdown_connection_slot,
            connections_complete: self.shutdown_connections_complete,
            failure_scan_started: self.failure_scan_started,
            completion_ready: self.terminal_completion_ready,
            cm_budget: self.cm_budget,
            reclamation_budget: self.reclamation_budget,
            shutdown_deadline: self.shutdown_deadline,
        }
    }

    pub open spec fn wf(&self) -> bool {
        &&& self.tables.wf()
        &&& self.deadlines.wf()
        &&& self.terminal_outcome matches Some(outcome) ==> outcome is Failed
    }

    /// A session with room for `capacity` connections and listeners, and for
    /// `requests` of each kind of request.
    pub fn new(
        capacity: u32,
        requests: u32,
        admission: Arc<Semaphore>,
        cm_budget: usize,
        reclamation_budget: usize,
        shutdown_deadline: u64,
    ) -> (sources: Self)
        ensures
            sources.wf(),
            sources@.drained(),
            sources@.tables.cm == CmView::idle(capacity as nat),
            sources@.tables.connections == RegistryView::idle(
                capacity as nat,
                *admission,
            ),
            sources@.tables.connects == SlotsView::<OutboundRequest>::unused(requests as nat),
            sources@.tables.listens == SlotsView::<ListenRequest>::unused(requests as nat),
            sources@.tables.accepts == SlotsView::<AcceptRequest>::unused(requests as nat),
            sources.tables.connects.spent() == 0,
            sources.tables.listens.spent() == 0,
            sources.tables.accepts.spent() == 0,
            sources@.deadlines.len() == 0,
            sources@.numbers_left == u64::MAX,
            sources@.ready.len() == 0,
            !sources@.shutdown_requested && !sources@.shutdown_started,
            sources@.terminal_outcome is None,
            sources@.cursor == CmShutdownCursor::start(),
            sources@.connection_slot == 0 && !sources@.connections_complete,
            !sources@.failure_scan_started && !sources@.completion_ready,
            sources@.cm_budget == cm_budget,
            sources@.reclamation_budget == reclamation_budget,
            sources@.shutdown_deadline == shutdown_deadline,
    {
        SessionReactorSources {
            tables: SessionTables {
                cm: CmState::new(capacity),
                connections: ConnectionRegistry::new_with_admission(capacity, admission),
                connects: SlotRegistry::new(requests),
                listens: SlotRegistry::new(requests),
                accepts: SlotRegistry::new(requests),
            },
            deadlines: DeadlineQueue::new(),
            ready_deadlines: VecDeque::new(),
            shutdown_requested: false,
            terminal_outcome: None,
            shutdown_started: false,
            shutdown_cm: CmShutdownCursor::new(),
            shutdown_connection_slot: 0,
            shutdown_connections_complete: false,
            failure_scan_started: false,
            terminal_completion_ready: false,
            cm_budget,
            reclamation_budget,
            shutdown_deadline,
        }
    }

    /// Begins a turn. A shutdown begins once; a failure searches everything anew,
    /// also what an orderly shutdown has been at already.
    pub fn begin_turn(
        &mut self,
        shutting_down: bool,
        terminal_outcome: Option<MemoizedTerminalResult>,
        now: u64,
    ) -> (turn: (bool, bool))
        requires
            old(self).wf(),
            terminal_outcome matches Some(outcome) ==> outcome is Failed,
        ensures
            final(self).wf(),
            turn == (shutting_down, terminal_outcome is Some),
            ({
                let told = SourcesView {
                    shutdown_requested: shutting_down,
                    terminal_outcome,
                    completion_ready: old(self)@.completion_ready && !shutting_down,
                    ..old(self)@
                };
                let begun = if shutting_down {
                    told.shutdown_begun(now)
                } else {
                    told
                };
                final(self)@ == if terminal_outcome is Some {
                    begun.failure_begun()
                } else {
                    begun
                }
            }),
    {
        let failure: bool = terminal_outcome.is_some();
        self.shutdown_requested = shutting_down;
        self.terminal_outcome = terminal_outcome;
        if shutting_down {
            self.terminal_completion_ready = false;
            self.ensure_shutdown_started(now);
        }
        if failure {
            self.prepare_failure_scan();
        }
        (shutting_down, failure)
    }

    fn ensure_shutdown_started(&mut self, now: u64)
        requires
            old(self).wf(),
        ensures
            final(self).wf(),
            final(self)@ == old(self)@.shutdown_begun(now),
    {
        if self.shutdown_started {
            return;
        }
        self.shutdown_started = true;
        start(&mut self.tables.cm);
        self.tables.connections.schedule_deadline(
            DeadlineKind::EngineShutdown,
            0,
            self.shutdown_deadline,
            now,
        );
    }

    fn prepare_failure_scan(&mut self)
        requires
            old(self).wf(),
        ensures
            final(self).wf(),
            final(self)@ == old(self)@.failure_begun(),
    {
        if self.failure_scan_started {
            return;
        }
        self.failure_scan_started = true;
        self.shutdown_cm = CmShutdownCursor::new();
        self.shutdown_connection_slot = 0;
        self.shutdown_connections_complete = false;
    }

    pub fn shutdown_issuance_complete(&self) -> (done: bool)
        requires
            self.wf(),
        ensures
            done == self@.issuance_complete(),
    {
        self.shutdown_started && self.shutdown_connections_complete && complete(
            &self.tables.cm,
            &self.tables.connections,
            &self.shutdown_cm,
        )
    }

    pub fn terminal_state_drained(&self) -> (drained: bool)
        requires
            self.wf(),
        ensures
            drained == self@.drained(),
    {
        !self.tables.cm.has_software_work(&self.tables.connections)
            && self.tables.cm.retained_owner_count(&self.tables.connections) == 0
            && self.tables.connections.live() == 0
    }

    /// Ends a turn: decides whether the session can come to its end.
    ///
    /// A failed one can once everything was asked to end and no listener has work; an
    /// orderly one only once nothing is left of it and no event was there to read.
    pub fn finish_turn(
        &mut self,
        shutting_down: bool,
        terminal_failure: bool,
        observed_would_block: bool,
    )
        requires
            old(self).wf(),
        ensures
            final(self).wf(),
            final(self)@ == (SourcesView {
                completion_ready: old(self)@.completion_ready || (terminal_failure && old(
                    self,
                )@.issuance_complete() && old(self)@.tables.cm.listener_work.len() == 0) || (
                shutting_down && observed_would_block && old(self)@.issuance_complete() && old(
                    self,
                )@.drained()),
                ..old(self)@
            }),
    {
        if terminal_failure && self.shutdown_issuance_complete()
            && self.tables.cm.listener_work_count() == 0 {
            self.terminal_completion_ready = true;
        } else if shutting_down && observed_would_block && self.shutdown_issuance_complete()
            && self.terminal_state_drained() {
            self.terminal_completion_ready = true;
        }
    }

    /// Whether the shutdown still has something to ask for.
    pub fn shutdown_work_pending(&self) -> (pending: bool)
        requires
            self.wf(),
        ensures
            pending == (self@.shutdown_requested && !self@.issuance_complete()),
    {
        self.shutdown_requested && !self.shutdown_issuance_complete()
    }

    /// Whether the session can come to its end.
    pub fn can_finish(&self) -> (finish: bool)
        requires
            self.wf(),
        ensures
            finish == (self@.completion_ready && self@.issuance_complete() && (
            self@.terminal_outcome is Some || self@.drained())),
    {
        if !self.terminal_completion_ready || !self.shutdown_issuance_complete() {
            return false;
        }
        self.terminal_outcome.is_some() || self.terminal_state_drained()
    }

    /// How many deadlines are known to be due.
    pub fn due_deadline_count(&self, now: u64) -> (count: usize)
        ensures
            count as int == if self@.ready.len() == usize::MAX {
                usize::MAX as int
            } else {
                self@.ready.len() + if self@.deadlines.len() > 0 && self@.deadlines[0].at <= now {
                    1int
                } else {
                    0
                }
            },
    {
        let due: usize = if self.deadlines.has_due(now) {
            1
        } else {
            0
        };
        self.ready_deadlines.len().saturating_add(due)
    }

    /// Moves due deadlines to those that are ready, no more than the budget holds.
    pub fn prepare_due_deadline_snapshot(&mut self, now: u64) -> (ready: usize)
        requires
            old(self).wf(),
        ensures
            final(self).wf(),
            ({
                let free = if old(self)@.ready.len() <= old(self)@.reclamation_budget {
                    old(self)@.reclamation_budget - old(self)@.ready.len()
                } else {
                    0
                };
                let due = due_by(old(self)@.deadlines, now);
                let count = if due <= free {
                    due as int
                } else {
                    free
                };
                &&& ready == old(self)@.ready.len() + count
                &&& final(self)@ == (SourcesView {
                    deadlines: old(self)@.deadlines.skip(count),
                    ready: old(self)@.ready + old(self)@.deadlines.take(count).map_values(
                        |entry: QueuedDeadline| entry.deadline,
                    ),
                    ..old(self)@
                })
            }),
    {
        let free: usize = self.reclamation_budget.saturating_sub(self.ready_deadlines.len());
        let due: Vec<SessionDeadline> = self.deadlines.drain_due(now, free);
        let ghost count = due@.len() as int;
        let ghost named = |entry: QueuedDeadline| entry.deadline;
        proof {
            assert(count <= old(self)@.deadlines.len());
            assert(due@ =~= old(self)@.deadlines.take(count).map_values(named));
        }
        let mut next: usize = 0;
        while next < due.len()
            invariant
                next <= due.len(),
                self.ready_deadlines@ == old(self)@.ready + due@.take(next as int),
                self@ == (SourcesView {
                    deadlines: old(self)@.deadlines.skip(due@.len() as int),
                    ready: self.ready_deadlines@,
                    ..old(self)@
                }),
                self.wf(),
                old(self).wf(),
            decreases due.len() - next,
        {
            self.ready_deadlines.push_back(due[next]);
            proof {
                assert(due@.take(next + 1) =~= due@.take(next as int).push(due@[next as int]));
                assert(self.ready_deadlines@ =~= old(self)@.ready + due@.take(next + 1));
            }
            next = next + 1;
        }
        assert(due@.take(next as int) =~= due@);
        self.ready_deadlines.len()
    }

    pub fn next_deadline(&self) -> (at: Option<u64>)
        ensures
            at == if self@.deadlines.len() > 0 {
                Some(self@.deadlines[0].at)
            } else {
                None
            },
    {
        self.deadlines.next()
    }
}

/// The queue with all of `requests` added, one after another.
pub open spec fn queued_all(queue: Seq<QueuedDeadline>, requests: Seq<DeadlineRequest>) -> Seq<
    QueuedDeadline,
>
    decreases requests.len(),
{
    if requests.len() == 0 {
        queue
    } else {
        queued(
            queued_all(queue, requests.drop_last()),
            QueuedDeadline {
                at: requests.last().at,
                deadline: SessionDeadline {
                    kind: requests.last().kind,
                    token: requests.last().token,
                },
            },
        )
    }
}

/// Four times a count, as far as the counter goes.
fn four_times(count: usize) -> (product: usize)
    ensures
        product == crate::cm::saturated((count * 4) as nat),
{
    match count.checked_mul(4) {
        Some(product) => product,
        None => usize::MAX,
    }
}

/// The smaller of two counts.
pub open spec fn fewer(a: nat, b: nat) -> nat {
    if a <= b {
        a
    } else {
        b
    }
}

/// The publications that serving a deadline needs room for.
pub open spec fn deadline_reserve(kind: DeadlineKind) -> nat {
    match kind {
        DeadlineKind::EngineShutdown => 0,
        DeadlineKind::ConnectionDrain => DRAIN_RESERVE as nat,
    }
}

/// The connection once the engine ended with `outcome`, its queue pair moving to the
/// error state.
pub open spec fn engine_ended(
    connection: ConnectionState,
    outcome: MemoizedTerminalResult,
    reply: Result<(), Error>,
) -> ConnectionState {
    let told = ConnectionState {
        close: if connection.close.engine_terminal is None {
            SessionCloseState { engine_terminal: Some(outcome), ..connection.close }
        } else {
            connection.close
        },
        ..connection
    };
    told.error_transitioned(reply).engine_finalized(outcome)
}

/// The registry once a connection ended with the engine: accepted work keeps its
/// bundle in quarantine.
pub open spec fn connection_ended(
    view: RegistryView,
    token: ConnectionToken,
    outcome: MemoizedTerminalResult,
    reply: Result<(), Error>,
) -> RegistryView {
    if !view.connected(token) {
        view
    } else {
        let held = connection_held(view, token);
        held.set_connection(token, engine_ended(held.connection(token), outcome, reply))
    }
}

/// The publications once a connection ended with the engine.
pub open spec fn connection_end_told(
    view: RegistryView,
    token: ConnectionToken,
    outcome: MemoizedTerminalResult,
    actions: Seq<Action>,
) -> Seq<Action> {
    if !view.connected(token) {
        actions
    } else {
        actions.push(
            Action::IoEvent {
                connection: token,
                event: IoTerminalEvent::Terminal(outcome->Failed_0),
            },
        ).push(Action::WakeClose { connection: view.connection(token).token })
    }
}

fn end_connection(
    connections: &mut ConnectionRegistry,
    token: ConnectionToken,
    outcome: &MemoizedTerminalResult,
    reply: Result<(), Error>,
    actions: &mut ReactorActions,
)
    requires
        old(connections).wf(),
        *outcome is Failed,
    ensures
        final(connections).wf(),
        final(connections)@ == connection_ended(old(connections)@, token, *outcome, reply),
        final(actions)@ == connection_end_told(
            old(connections)@,
            token,
            *outcome,
            old(actions)@,
        ),
{
    let retain: bool = match connections.connection(token) {
        None => {
            return;
        },
        Some(connection) => connection.retain_bundle_for_engine_failure(
            connection.io_ledger.accepted_count(),
        ),
    };
    if retain {
        let _ = connections.track_bundle_quarantine(token);
    }
    assert(connections@ == connection_held(old(connections)@, token));
    if let Some(connection) = connections.connection_mut(token) {
        connection.close.record_engine_terminal(outcome);
        if let Some(event) = connection.finalize_engine(outcome, reply) {
            actions.push(Action::IoEvent { connection: token, event });
        }
        actions.push(Action::WakeClose { connection: connection.token });
    }
}

/// The registry with the bundle of a connection quarantined that has accepted work.
pub open spec fn connection_held(view: RegistryView, token: ConnectionToken) -> RegistryView {
    if ConnectionRegistry::accepted_of(view, token) != 0
        && ConnectionRegistry::bundle_open(view, token) {
        view.set(token, view.entry(token).bundle_quarantined())
    } else {
        view
    }
}

impl SessionReactorSources {
    /// Hands deadlines that were asked for to the queue, no more than `budget`.
    pub fn service_deadline_requests(&mut self, budget: usize) -> (result: Result<usize, Error>)
        requires
            old(self).wf(),
        ensures
            final(self).wf(),
            ({
                let asked = old(self)@.tables.connections.deadlines;
                let count = fewer(budget as nat, asked.len());
                let numbered = fewer(count, old(self)@.numbers_left);
                &&& final(self)@ == (SourcesView {
                    tables: TablesView {
                        connections: RegistryView {
                            deadlines: asked.skip(count as int),
                            ..old(self)@.tables.connections
                        },
                        ..old(self)@.tables
                    },
                    deadlines: queued_all(old(self)@.deadlines, asked.take(numbered as int)),
                    numbers_left: (old(self)@.numbers_left - numbered) as nat,
                    ..old(self)@
                })
                &&& if numbered == count {
                    result == Ok::<usize, Error>(count as usize)
                } else {
                    result matches Err(error) && error.is_invalid_config(
                        "session deadline insertion sequence exhausted"@,
                    )
                }
            }),
    {
        let taken: Vec<DeadlineRequest> = self.tables.connections.take_deadline_requests(budget);
        let ghost asked = old(self)@.tables.connections.deadlines;
        proof {
            let rest = self.tables@.connections.deadlines;
            let count = taken@.len() as int;
            assert(taken@ =~= (taken@ + rest).take(count));
            assert(rest =~= (taken@ + rest).skip(count));
        }
        let ghost moved = self@;
        let mut consumed: usize = 0;
        while consumed < taken.len()
            invariant
                self.wf(),
                consumed <= taken.len(),
                asked == old(self)@.tables.connections.deadlines,
                taken@ == asked.take(taken@.len() as int),
                taken@.len() <= asked.len(),
                taken@.len() == fewer(budget as nat, asked.len()),
                consumed <= moved.numbers_left,
                moved.numbers_left == old(self)@.numbers_left,
                moved.deadlines == old(self)@.deadlines,
                moved == (SourcesView {
                    tables: TablesView {
                        connections: RegistryView {
                            deadlines: asked.skip(taken@.len() as int),
                            ..old(self)@.tables.connections
                        },
                        ..old(self)@.tables
                    },
                    ..old(self)@
                }),
                self@ == (SourcesView {
                    deadlines: queued_all(moved.deadlines, asked.take(consumed as int)),
                    numbers_left: (moved.numbers_left - consumed) as nat,
                    ..moved
                }),
            decreases taken.len() - consumed,
        {
            let request: DeadlineRequest = taken[consumed];
            proof {
                assert(request == asked[consumed as int]);
                assert(asked.take(consumed + 1).drop_last() =~= asked.take(consumed as int));
            }
            let ghost here = self@;
            if let Err(error) = self.deadlines.push(
                request.at,
                SessionDeadline { kind: request.kind, token: request.token },
            ) {
                assert(self@ =~= here);
                assert(consumed == fewer(taken@.len(), old(self)@.numbers_left));
                return Err(error);
            }
            consumed = consumed + 1;
        }
        Ok(consumed)
    }

    /// Takes the next deadline that is ready, while the budget lasts. One that there
    /// is no room to serve stays where it is.
    pub fn next_due_deadline(
        &mut self,
        consumed: usize,
        budget: usize,
        actions: &ReactorActions,
    ) -> (next: Option<SessionDeadline>)
        requires
            old(self).wf(),
        ensures
            final(self).wf(),
            if consumed < budget && old(self)@.ready.len() > 0 && actions.room()
                >= deadline_reserve(old(self)@.ready[0].kind) {
                &&& next == Some(old(self)@.ready[0])
                &&& final(self)@ == (SourcesView {
                    ready: old(self)@.ready.drop_first(),
                    ..old(self)@
                })
            } else {
                next is None && final(self)@ == old(self)@
            },
    {
        if consumed >= budget || self.ready_deadlines.len() == 0 {
            return None;
        }
        let reserve: usize = match self.ready_deadlines[0].kind {
            DeadlineKind::EngineShutdown => 0,
            DeadlineKind::ConnectionDrain => DRAIN_RESERVE,
        };
        if !actions.can_accept(reserve) {
            return None;
        }
        let next = self.ready_deadlines.pop_front();
        assert(self.ready_deadlines@ =~= old(self)@.ready.drop_first());
        next
    }

    /// Serves the deadline of the shutdown: what is still owned or under way then is
    /// wedged. `live` is the number of live bundles.
    pub fn engine_deadline_reached(&self, live: usize, outstanding_operations: usize) -> (result:
        Result<(), Error>)
        requires
            self.wf(),
        ensures
            ({
                let owned = crate::cm::saturated(
                    self@.tables.cm.listeners.slots.entries.dom().len()
                        + self@.tables.cm.destructions.len(),
                );
                let pending = self@.tables.cm.pending_listens.len()
                    + self@.tables.cm.listener_work.len() + self@.tables.cm.destructions.len()
                    + self@.tables.cm.listeners.slots.entries.dom().len();
                result == if live != 0 || owned != 0 || outstanding_operations != 0 || pending
                    != 0 {
                    Err::<(), Error>(
                        Error::EngineWedged {
                            retained_bundles: if live >= owned {
                                live
                            } else {
                                owned
                            },
                            outstanding_operations,
                            cq_debt: outstanding_operations,
                        },
                    )
                } else {
                    Ok(())
                }
            }),
    {
        let owned: usize = self.tables.cm.retained_session_owner_count();
        let retained_bundles: usize = if live >= owned {
            live
        } else {
            owned
        };
        let pending_routes: usize = live.saturating_add(
            self.tables.cm.pending_lifecycle_work_count(),
        );
        if retained_bundles != 0 || outstanding_operations != 0 || pending_routes != 0 {
            return Err(
                Error::EngineWedged {
                    retained_bundles,
                    outstanding_operations,
                    cq_debt: outstanding_operations,
                },
            );
        }
        Ok(())
    }

    /// What one turn of the shutdown may do.
    pub fn shutdown_snapshot(&self) -> (limits: CmShutdownSnapshot)
        requires
            self.wf(),
        ensures
            shutdown_limits(self@, limits),
    {
        snapshot(
            &self.tables.cm,
            &self.tables.connections,
            self.terminal_outcome.is_some(),
            &self.shutdown_cm,
            self.cm_budget,
        )
    }

    /// Does one kind of shutdown work: with the engine's failure, if it has one, and
    /// as an orderly end otherwise.
    pub fn service_cm_shutdown_class(
        &mut self,
        class: CmShutdownClass,
        budget: usize,
        actions: &mut ReactorActions,
    ) -> (processed: usize)
        requires
            old(self).wf(),
        ensures
            final(self).wf(),
            processed <= budget,
            final(self)@ == (SourcesView {
                tables: final(self)@.tables,
                cursor: final(self)@.cursor,
                ..old(self)@
            }),
            shutdown_served(
                ShutdownView {
                    tables: old(self)@.tables,
                    actions: old(actions)@,
                    cursor: old(self)@.cursor,
                },
                ShutdownView {
                    tables: final(self)@.tables,
                    actions: final(actions)@,
                    cursor: final(self)@.cursor,
                },
                class,
                match old(self)@.terminal_outcome {
                    Some(failure) => failure,
                    None => MemoizedTerminalResult::Failed(Error::DriverShutdown),
                },
                old(self)@.terminal_outcome is Some,
                budget,
                processed,
            ),
    {
        let terminalize: bool = self.terminal_outcome.is_some();
        let outcome = match &self.terminal_outcome {
            Some(failure) => failure.clone(),
            None => MemoizedTerminalResult::from_error(Error::DriverShutdown),
        };
        service_class(
            &mut self.tables,
            &outcome,
            terminalize,
            &mut self.shutdown_cm,
            class,
            budget,
            actions,
        )
    }

    /// Looks at the next slot for a connection to shut down, while the budget lasts
    /// and there is room for what a close publishes.
    pub fn next_shutdown_connection(
        &mut self,
        processed: usize,
        budget: usize,
        actions: &ReactorActions,
    ) -> (next: Option<Option<ConnectionToken>>)
        requires
            old(self).wf(),
        ensures
            final(self).wf(),
            ({
                let slots = old(self)@.tables.connections.slots;
                let slot = old(self)@.connection_slot;
                if !may_step(processed, budget, actions.room()) || old(self)@.connections_complete {
                    next is None && final(self)@ == old(self)@
                } else if slot >= slots.marks.len() {
                    &&& next is None
                    &&& final(self)@ == (SourcesView { connections_complete: true, ..old(self)@ })
                } else {
                    let found = slots.occupied_between(slot as int, slot + 1).filter(
                        |token: SlotToken| old(self)@.tables.connections.connected(token),
                    );
                    &&& next == Some(
                        if found.len() > 0 {
                            Some(found[0])
                        } else {
                            None
                        },
                    )
                    &&& final(self)@ == (SourcesView {
                        connection_slot: (slot + 1) as usize,
                        connections_complete: slot + 1 >= slots.marks.len(),
                        ..old(self)@
                    })
                }
            }),
    {
        if processed >= budget || !actions.can_accept(CM_STEP_RESERVE)
            || self.shutdown_connections_complete {
            return None;
        }
        let (found, next, complete, scanned): (Vec<ConnectionToken>, usize, bool, usize) =
            self.tables.connections.scan_occupied(self.shutdown_connection_slot, 1);
        self.shutdown_connection_slot = next;
        self.shutdown_connections_complete = complete;
        if scanned == 0 {
            return None;
        }
        if found.len() > 0 {
            Some(Some(found[0]))
        } else {
            Some(None)
        }
    }

    /// Ends a connection with the engine's failure, once its close has begun; the
    /// provider answers a move to the error state that is still needed with `reply`.
    /// Without a failure nothing happens.
    pub fn end_shutdown_connection(
        &mut self,
        token: ConnectionToken,
        reply: Result<(), Error>,
        actions: &mut ReactorActions,
    )
        requires
            old(self).wf(),
        ensures
            final(self).wf(),
            match old(self)@.terminal_outcome {
                Some(outcome) => {
                    &&& final(self)@ == (SourcesView {
                        tables: TablesView {
                            connections: connection_ended(
                                old(self)@.tables.connections,
                                token,
                                outcome,
                                reply,
                            ),
                            ..old(self)@.tables
                        },
                        ..old(self)@
                    })
                    &&& final(actions)@ == connection_end_told(
                        old(self)@.tables.connections,
                        token,
                        outcome,
                        old(actions)@,
                    )
                },
                None => final(self)@ == old(self)@ && final(actions)@ == old(actions)@,
            },
            final(actions)@.len() <= old(actions)@.len() + STEP_PUBLICATIONS,
    {
        if let Some(outcome) = &self.terminal_outcome {
            end_connection(&mut self.tables.connections, token, outcome, reply, actions);
        }
    }

    /// How many turns listeners get when their driver is dropped.
    pub fn listener_drop_steps(&self) -> (steps: usize)
        requires
            self.wf(),
        ensures
            ({
                let cm = self@.tables.cm;
                let pending = crate::cm::saturated(
                    cm.pending_listens.len() + cm.listener_work.len() + cm.destructions.len()
                        + cm.listeners.slots.entries.dom().len(),
                );
                steps == if pending == 0 {
                    1
                } else {
                    crate::cm::saturated((pending * 4) as nat)
                }
            }),
    {
        let steps: usize = four_times(self.tables.cm.pending_lifecycle_work_count());
        if steps < 1 {
            1
        } else {
            steps
        }
    }

    /// How many turns deferred destructions get when their driver is dropped.
    pub fn destruction_drop_steps(&self) -> (steps: usize)
        ensures
            ({
                let total = crate::cm::saturated(
                    (crate::cm::saturated((self@.tables.cm.destructions.len() * 4) as nat)
                        + self@.cm_budget) as nat,
                );
                steps == if total == 0 {
                    1
                } else {
                    total
                }
            }),
    {
        let steps: usize = four_times(self.tables.cm.destruction_work_count()).saturating_add(
            self.cm_budget,
        );
        if steps < 1 {
            1
        } else {
            steps
        }
    }
}

/// Whether `limits` is what one turn of the shutdown may do.
pub open spec fn shutdown_limits(view: SourcesView, limits: CmShutdownSnapshot) -> bool {
    let budget = view.cm_budget;
    &&& limits.limits@[0] == limited(view.tables.connections.pending_outbound.len(), budget)
    &&& limits.limits@[1] == if view.cursor.routes_complete {
        0
    } else {
        budget
    }
    &&& limits.limits@[2] == limited(view.tables.cm.pending_listens.len(), budget)
    &&& limits.limits@[3] == if view.cursor.listeners_complete {
        0
    } else {
        budget
    }
    &&& limits.limits@[4] == limited(
        retained_limit(view.tables.cm, view.cursor, view.terminal_outcome is Some),
        budget,
    )
}

/// A failure searches everything anew once, and a shutdown begins once.
pub proof fn shutdown_and_failure_begin_once(view: SourcesView, now: u64, later: u64)
    ensures
        view.failure_begun().failure_begun() == view.failure_begun(),
        view.shutdown_begun(now).shutdown_begun(later) == view.shutdown_begun(now),
{
}

/// A failure that comes in the middle of an orderly shutdown looks at every slot again.
pub proof fn a_failure_starts_from_the_first_slot(view: SourcesView)
    requires
        !view.failure_scan_started,
    ensures
        view.failure_begun().cursor == CmShutdownCursor::start(),
        view.failure_begun().connection_slot == 0,
        !view.failure_begun().issuance_complete(),
{
}

} // verus!
