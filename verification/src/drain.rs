//! The close of a connection: its accepted work drains, is reclaimed, or is quarantined.
//!
//! What only the provider or the I/O side can do comes back as a step; the caller
//! performs it and hands its result to the function that goes on.

use vstd::prelude::*;

use crate::actions::{Action, IoTerminalEvent, ReactorActions, STEP_PUBLICATIONS};
use crate::cm::CmState;
use crate::connection::{ConnectionState, QpDestructionProof};
use crate::error::Error;
use crate::inbound::{close_prepared, close_prepared_actions, close_prepared_requests};
use crate::inbound::prepare_selected_connection_close;
use crate::registry::{deadline_at, ConnectionEntry, Lifecycle, RegistryView};
use crate::registry::{ConnectionRegistry, DeadlineKind, DeadlineRequest};
use crate::requests::AcceptRequest;
use crate::slots::SlotRegistry;
use crate::token::{ConnectionToken, OperationToken};

verus! {

/// How many operations one scan visits at most.
pub const OPERATION_SCAN_BUDGET: usize = 32;

/// How many publications a drain step leaves free for what ends it.
pub const DRAIN_RESERVE: usize = 2;

/// The registry with a drain deadline for a connection scheduled.
pub open spec fn drain_scheduled(
    view: RegistryView,
    token: ConnectionToken,
    after: u64,
    now: u64,
) -> RegistryView {
    RegistryView {
        deadlines: view.deadlines.push(
            DeadlineRequest {
                at: deadline_at(now, after),
                kind: DeadlineKind::ConnectionDrain,
                token: token.encoded() as u64,
            },
        ),
        ..view
    }
}

/// Schedules a drain deadline for a connection.
pub fn schedule_connection_drain(
    connections: &mut ConnectionRegistry,
    token: ConnectionToken,
    after: u64,
    now: u64,
)
    requires
        old(connections).wf(),
    ensures
        final(connections).wf(),
        final(connections)@ == drain_scheduled(old(connections)@, token, after, now),
{
    connections.schedule_deadline(DeadlineKind::ConnectionDrain, token.encode(), after, now);
}

/// The registry with a connection recorded as drained.
pub open spec fn drained(view: RegistryView, token: ConnectionToken) -> RegistryView {
    if view.connected(token) {
        view.set_connection(
            token,
            ConnectionState { drained_recorded: true, ..view.connection(token) },
        )
    } else {
        view
    }
}

/// The registry with a connection queued for retirement, where it can be.
pub open spec fn retirement_requested(view: RegistryView, token: ConnectionToken) -> RegistryView {
    if view.has(token) && ConnectionRegistry::retirable(view.entry(token)) {
        RegistryView {
            retirements: view.retirements.push(token),
            ..view.set(
                token,
                ConnectionEntry {
                    lifecycle: Lifecycle::Retiring { started: false },
                    ..view.entry(token)
                },
            )
        }
    } else {
        view
    }
}

/// The registry once a close looked whether accepted work remains: a connection
/// without any is drained and goes to retirement.
pub open spec fn close_settled(view: RegistryView, token: ConnectionToken) -> RegistryView {
    if ConnectionRegistry::accepted_of(view, token) == 0 {
        retirement_requested(drained(view, token), token)
    } else {
        view
    }
}

fn settle_close(connections: &mut ConnectionRegistry, token: ConnectionToken)
    requires
        old(connections).wf(),
    ensures
        final(connections).wf(),
        final(connections)@ == close_settled(old(connections)@, token),
{
    if connections.accepted_count(token) == 0 {
        let _ = connections.mark_drained_once(token);
        let _ = connections.request_retirement(token);
    }
}

/// What the close of a connection does next.
pub enum CloseStep {
    /// Nothing more.
    Closed,
    /// Move the queue pair to the error state.
    Transition,
    /// End the observers of accepted operations with `error`, from `slot` on, no
    /// more than `budget` of them.
    ScanObservers { slot: usize, budget: usize, error: Error },
    /// The provider failed: the whole engine fails with this error.
    FailDriver(Error),
}

/// How many operations a scan may visit now.
pub open spec fn scan_budget(room: nat) -> usize {
    if room <= DRAIN_RESERVE {
        0
    } else if room - DRAIN_RESERVE <= OPERATION_SCAN_BUDGET {
        (room - DRAIN_RESERVE) as usize
    } else {
        OPERATION_SCAN_BUDGET
    }
}

fn operation_scan_budget(actions: &ReactorActions) -> (budget: usize)
    ensures
        budget == scan_budget(actions.room()),
{
    let free: usize = actions.remaining().saturating_sub(DRAIN_RESERVE);
    if free < OPERATION_SCAN_BUDGET {
        free
    } else {
        OPERATION_SCAN_BUDGET
    }
}

/// Begins the close of a connection.
///
/// Its inbound route is prepared first. The first close goes on with the move to
/// the error state; a later one only looks whether the connection has drained.
pub fn begin_connection_close_into(
    cm: &CmState,
    connections: &mut ConnectionRegistry,
    requests: &mut SlotRegistry<AcceptRequest>,
    token: ConnectionToken,
    actions: &mut ReactorActions,
) -> (step: CloseStep)
    requires
        cm.wf(),
        old(connections).wf(),
        old(requests).wf(),
    ensures
        final(connections).wf(),
        final(requests).wf(),
        final(requests).spent() == old(requests).spent(),
        if old(connections)@.connected(token) {
            let prepared = close_prepared(old(connections)@, token, token);
            &&& final(requests)@ == close_prepared_requests(
                cm@,
                old(connections)@,
                old(requests)@,
                token,
                token,
            )
            &&& final(actions)@ == close_prepared_actions(
                old(connections)@,
                old(requests)@,
                old(actions)@,
                token,
                token,
            )
            &&& if ConnectionRegistry::closable(prepared.entry(token)) {
                &&& step == CloseStep::Transition
                &&& final(connections)@ == prepared.set(
                    token,
                    ConnectionRegistry::closed(prepared.entry(token)),
                )
            } else {
                &&& step == CloseStep::Closed
                &&& final(connections)@ == close_settled(prepared, token)
            }
        } else {
            &&& step == CloseStep::Closed
            &&& final(connections)@ == old(connections)@
            &&& final(requests)@ == old(requests)@
            &&& final(actions)@ == old(actions)@
        },
        final(actions)@.len() <= old(actions)@.len() + STEP_PUBLICATIONS,
{
    if connections.connection(token).is_none() {
        return CloseStep::Closed;
    }
    let _ = prepare_selected_connection_close(cm, connections, requests, token, token, actions);
    if connections.begin_close(token) {
        CloseStep::Transition
    } else {
        settle_close(connections, token);
        CloseStep::Closed
    }
}

/// The registry once the provider refused the move to the error state: the failure
/// is kept, and the whole bundle is quarantined.
pub open spec fn transition_failed(
    view: RegistryView,
    token: ConnectionToken,
    reply: Result<(), Error>,
    error: Error,
) -> RegistryView {
    let failed = view.set_connection(
        token,
        view.connection(token).error_transitioned(reply).cm_failed(error),
    );
    if failed.entry(token).is_live(Lifecycle::Draining) {
        failed.set(token, ConnectionRegistry::close_failed(failed.entry(token)))
    } else {
        failed
    }
}

/// Goes on with a close once the provider answered the move to the error state.
///
/// During a shutdown the observers are left to it. A scan that has no room now is
/// taken up again by a drain deadline that is due at once.
pub fn close_transitioned(
    connections: &mut ConnectionRegistry,
    token: ConnectionToken,
    reply: Result<(), Error>,
    shutting_down: bool,
    grace: u64,
    now: u64,
    actions: &mut ReactorActions,
) -> (step: CloseStep)
    requires
        old(connections).wf(),
        old(connections)@.connected(token),
    ensures
        final(connections).wf(),
        ({
            let before = old(connections)@;
            let connection = before.connection(token);
            let moved = before.set_connection(token, connection.error_transitioned(reply));
            match reply {
                Err(error) if connection.error_transition_needed() => {
                    &&& step == CloseStep::FailDriver(error)
                    &&& final(connections)@ == transition_failed(before, token, reply, error)
                    &&& final(actions)@ == old(actions)@.push(
                        Action::IoEvent {
                            connection: token,
                            event: IoTerminalEvent::Terminal(error),
                        },
                    ).push(Action::WakeClose { connection: connection.token })
                },
                _ => {
                    &&& final(actions)@ == old(actions)@
                    &&& if shutting_down || connection.close_scan_complete {
                        &&& step == CloseStep::Closed
                        &&& final(connections)@ == close_settled(
                            drain_scheduled(moved, token, grace, now),
                            token,
                        )
                    } else if scan_budget(old(actions).room()) == 0 {
                        &&& step == CloseStep::Closed
                        &&& final(connections)@ == close_settled(
                            drain_scheduled(moved, token, 0, now),
                            token,
                        )
                    } else {
                        &&& step == CloseStep::ScanObservers {
                            slot: connection.close_scan_slot,
                            budget: scan_budget(old(actions).room()),
                            error: connection.close_error(),
                        }
                        &&& final(connections)@ == moved
                    }
                },
            }
        }),
        final(actions)@.len() <= old(actions)@.len() + STEP_PUBLICATIONS,
{
    if let Err(error) = connections.transition_connection_to_error(token, reply) {
        let ghost moved = connections@;
        if let Some(connection) = connections.connection_mut(token) {
            let event = connection.record_cm_failure(error.clone());
            let _ = connections.fail_close_into_quarantine(token);
            actions.push(Action::IoEvent { connection: token, event });
        }
        let owner: ConnectionToken = match connections.connection(token) {
            Some(connection) => connection.token,
            None => token,
        };
        actions.push(Action::WakeClose { connection: owner });
        assert(moved.set_connection(
            token,
            moved.connection(token).cm_failed(error),
        ).slots.entries =~= old(connections)@.set_connection(
            token,
            old(connections)@.connection(token).error_transitioned(reply).cm_failed(error),
        ).slots.entries);
        return CloseStep::FailDriver(error);
    }
    let mut after: u64 = grace;
    if !shutting_down {
        if let Some(connection) = connections.connection(token) {
            if !connection.close_scan_complete {
                let budget: usize = operation_scan_budget(actions);
                if budget > 0 {
                    return CloseStep::ScanObservers {
                        slot: connection.close_scan_slot,
                        budget,
                        error: connection.operation_close_error(),
                    };
                }
                after = 0;
            }
        }
    }
    schedule_connection_drain(connections, token, after, now);
    settle_close(connections, token);
    CloseStep::Closed
}

/// The registry with the progress of an observer scan recorded.
pub open spec fn observers_scanned(
    view: RegistryView,
    token: ConnectionToken,
    next: usize,
    complete: bool,
) -> RegistryView {
    if view.connected(token) {
        view.set_connection(
            token,
            ConnectionState {
                close_scan_slot: next,
                close_scan_complete: complete,
                ..view.connection(token)
            },
        )
    } else {
        view
    }
}

fn record_observer_scan(
    connections: &mut ConnectionRegistry,
    token: ConnectionToken,
    next: usize,
    complete: bool,
)
    requires
        old(connections).wf(),
    ensures
        final(connections).wf(),
        final(connections)@ == observers_scanned(old(connections)@, token, next, complete),
{
    if let Some(connection) = connections.connection_mut(token) {
        connection.update_close_operation_scan(next, complete);
    }
}

/// Ends the first part of a close once its observers were scanned up to `next`.
pub fn close_scanned(
    connections: &mut ConnectionRegistry,
    token: ConnectionToken,
    next: usize,
    complete: bool,
    grace: u64,
    now: u64,
)
    requires
        old(connections).wf(),
    ensures
        final(connections).wf(),
        final(connections)@ == close_settled(
            drain_scheduled(
                observers_scanned(old(connections)@, token, next, complete),
                token,
                if complete {
                    grace
                } else {
                    0
                },
                now,
            ),
            token,
        ),
{
    record_observer_scan(connections, token, next, complete);
    let after: u64 = if complete {
        grace
    } else {
        0
    };
    schedule_connection_drain(connections, token, after, now);
    settle_close(connections, token);
}

/// What a drain deadline does next.
pub enum DrainStep {
    /// Nothing more.
    Done,
    /// End the observers of accepted operations with `error`, from `slot` on, no
    /// more than `budget` of them.
    ScanObservers { slot: usize, budget: usize, error: Error },
    /// Completions were copied already: give them their ordinary turn.
    PublishConnection,
    /// Quarantine accepted operations from `slot` on, no more than `budget` of
    /// them; `settle` says whether the drain goes on afterwards.
    ScanQuarantine { slot: usize, budget: usize, settle: bool },
    /// Destroy the queue pair for the sake of these accepted operations.
    DestroyQp { operations: Vec<OperationToken>, accepted: usize },
    /// See how many of these operations can be reclaimed within `room` publications.
    Measure {
        evidence: QpDestructionProof,
        operations: Vec<OperationToken>,
        accepted: usize,
        room: usize,
    },
    /// Reclaim the first `prefix` of these operations on the strength of the evidence.
    Reclaim {
        evidence: QpDestructionProof,
        operations: Vec<OperationToken>,
        accepted: usize,
        prefix: usize,
    },
    /// Reject the completions that were copied before the queue pair went.
    RejectQueued { quantum: usize },
    /// Ask the I/O side to quarantine what is still accepted.
    BeginQuarantine,
}

/// How much room a publication of reclaimed operations has.
pub open spec fn reclaim_room(room: nat) -> usize {
    if room <= DRAIN_RESERVE {
        0
    } else {
        (room - DRAIN_RESERVE) as usize
    }
}

/// The first accepted operations of a connection, no more than `limit`.
pub open spec fn accepted_prefix(
    view: RegistryView,
    token: ConnectionToken,
    limit: usize,
) -> Seq<OperationToken> {
    let accepted = view.connection(token).io_ledger.accepted@;
    accepted.take(
        if limit <= accepted.len() {
            limit as int
        } else {
            accepted.len() as int
        },
    )
}

/// The registry with the destruction evidence of a connection taken out.
pub open spec fn evidence_taken(view: RegistryView, token: ConnectionToken) -> RegistryView {
    view.set_connection(
        token,
        ConnectionState { qp_reclamation_proof: None, ..view.connection(token) },
    )
}

/// The registry with the destruction evidence of a connection kept for later, and
/// the drain due again at once.
pub open spec fn evidence_kept(
    view: RegistryView,
    token: ConnectionToken,
    evidence: QpDestructionProof,
    now: u64,
) -> RegistryView {
    drain_scheduled(
        view.set_connection(
            token,
            ConnectionState { qp_reclamation_proof: Some(evidence), ..view.connection(token) },
        ),
        token,
        0,
        now,
    )
}

/// Whether a drain deadline still has observers to end before it drains.
pub open spec fn observers_come_first(
    view: RegistryView,
    token: ConnectionToken,
    shutting_down: bool,
) -> bool {
    view.entry(token).close_started() && !shutting_down && !view.connection(
        token,
    ).close_scan_complete
}

/// Serves a drain deadline of a connection.
///
/// Observers end first, then copied completions take their ordinary turn; only
/// after that is accepted work taken from the queue pair.
pub fn handle_connection_drain_deadline_into(
    connections: &mut ConnectionRegistry,
    token: ConnectionToken,
    shutting_down: bool,
    now: u64,
    actions: &ReactorActions,
) -> (step: DrainStep)
    requires
        old(connections).wf(),
        actions.room() >= DRAIN_RESERVE,
    ensures
        final(connections).wf(),
        ({
            let before = old(connections)@;
            let after = final(connections)@;
            let connection = before.connection(token);
            let budget = scan_budget(actions.room());
            let accepted = connection.io_ledger.accepted@.len();
            let operations = accepted_prefix(before, token, budget);
            if !before.connected(token) {
                step == DrainStep::Done && after == before
            } else if observers_come_first(before, token, shutting_down) {
                if budget == 0 {
                    step == DrainStep::Done && after == drain_scheduled(before, token, 0, now)
                } else {
                    &&& step == DrainStep::ScanObservers {
                        slot: connection.close_scan_slot,
                        budget,
                        error: connection.close_error(),
                    }
                    &&& after == before
                }
            } else if connection.io_ledger.completion_work {
                step == DrainStep::PublishConnection && after == drain_scheduled(
                    before,
                    token,
                    0,
                    now,
                )
            } else if before.entry(token).quarantine is Some {
                &&& step == if connection.quarantine_scan_complete {
                    DrainStep::Done
                } else {
                    DrainStep::ScanQuarantine {
                        slot: connection.quarantine_scan_slot,
                        budget: OPERATION_SCAN_BUDGET,
                        settle: false,
                    }
                }
                &&& after == before
            } else if accepted != 0 && operations.len() == 0 {
                step == DrainStep::Done && after == drain_scheduled(before, token, 0, now)
            } else {
                &&& after == evidence_taken(before, token)
                &&& match connection.qp_reclamation_proof {
                    Some(evidence) => step matches DrainStep::Measure {
                        evidence: held,
                        operations: first,
                        accepted: count,
                        room,
                    } && held == evidence && first@ == operations && count == accepted && room
                        == reclaim_room(actions.room()),
                    None => if operations.len() != 0 {
                        step matches DrainStep::DestroyQp { operations: first, accepted: count }
                            && first@ == operations && count == accepted
                    } else {
                        step == DrainStep::BeginQuarantine
                    },
                }
            }
        }),
{
    let started: bool = connections.close_started(token);
    let quarantined: bool = connections.is_quarantined(token);
    let budget: usize = operation_scan_budget(actions);
    let (operations, accepted): (Vec<OperationToken>, usize) = match connections.connection(token) {
        None => {
            return DrainStep::Done;
        },
        Some(connection) => {
            if started && !shutting_down && !connection.close_scan_complete {
                if budget == 0 {
                    schedule_connection_drain(connections, token, 0, now);
                    return DrainStep::Done;
                }
                return DrainStep::ScanObservers {
                    slot: connection.close_scan_slot,
                    budget,
                    error: connection.operation_close_error(),
                };
            }
            if connection.io_ledger.has_completion_work() {
                schedule_connection_drain(connections, token, 0, now);
                return DrainStep::PublishConnection;
            }
            if quarantined {
                if connection.quarantine_scan_complete {
                    return DrainStep::Done;
                }
                return DrainStep::ScanQuarantine {
                    slot: connection.quarantine_scan_slot,
                    budget: OPERATION_SCAN_BUDGET,
                    settle: false,
                };
            }
            (
                connection.io_ledger.accepted_tokens_bounded(budget),
                connection.io_ledger.accepted_count(),
            )
        },
    };
    if accepted != 0 && operations.len() == 0 {
        schedule_connection_drain(connections, token, 0, now);
        return DrainStep::Done;
    }
    let evidence = match connections.connection_mut(token) {
        Some(connection) => connection.take_qp_reclamation_proof(),
        None => None,
    };
    match evidence {
        Some(evidence) => DrainStep::Measure {
            evidence,
            operations,
            accepted,
            room: actions.remaining().saturating_sub(DRAIN_RESERVE),
        },
        None => if operations.len() != 0 {
            DrainStep::DestroyQp { operations, accepted }
        } else {
            DrainStep::BeginQuarantine
        },
    }
}

/// Goes on with a drain deadline once its observers were scanned up to `next`.
///
/// The grace period before anything destructive begins only when the last
/// observer was ended.
pub fn drain_observers_scanned(
    connections: &mut ConnectionRegistry,
    token: ConnectionToken,
    next: usize,
    complete: bool,
    grace: u64,
    now: u64,
)
    requires
        old(connections).wf(),
    ensures
        final(connections).wf(),
        final(connections)@ == drain_scheduled(
            observers_scanned(old(connections)@, token, next, complete),
            token,
            if complete {
                grace
            } else {
                0
            },
            now,
        ),
{
    record_observer_scan(connections, token, next, complete);
    let after: u64 = if complete {
        grace
    } else {
        0
    };
    schedule_connection_drain(connections, token, after, now);
}

/// Goes on with a drain deadline once the provider answered the destruction of the
/// queue pair. Without evidence of it nothing is reclaimed.
pub fn drain_qp_destroyed(
    connections: &mut ConnectionRegistry,
    token: ConnectionToken,
    operations: Vec<OperationToken>,
    accepted: usize,
    reply: Result<bool, Error>,
    actions: &ReactorActions,
) -> (step: DrainStep)
    requires
        old(connections).wf(),
        old(connections)@.connected(token),
    ensures
        final(connections).wf(),
        ({
            let connection = old(connections)@.connection(token);
            &&& final(connections)@ == old(connections)@.set_connection(
                token,
                connection.after_qp_destroy(reply),
            )
            &&& if connection.destruction_proven(reply) {
                step matches DrainStep::Measure {
                    evidence,
                    operations: first,
                    accepted: count,
                    room,
                } && evidence.proven_connection() == token && evidence.proven_qp_num()
                    == connection.qp_num && first == operations && count == accepted && room
                    == reclaim_room(actions.room())
            } else {
                step == DrainStep::BeginQuarantine
            }
        }),
{
    match connections.establish_qp_destruction_proof(token, reply) {
        Ok(evidence) => DrainStep::Measure {
            evidence,
            operations,
            accepted,
            room: actions.remaining().saturating_sub(DRAIN_RESERVE),
        },
        Err(_) => DrainStep::BeginQuarantine,
    }
}

/// Goes on with a drain deadline once it is known how many operations fit into the
/// publications that are left. Where none does, the evidence is kept for later.
pub fn drain_measured(
    connections: &mut ConnectionRegistry,
    token: ConnectionToken,
    evidence: QpDestructionProof,
    operations: Vec<OperationToken>,
    accepted: usize,
    prefix: usize,
    now: u64,
) -> (step: DrainStep)
    requires
        old(connections).wf(),
        old(connections)@.connected(token),
        old(connections)@.connection(token).qp_reclamation_proof is None,
    ensures
        final(connections).wf(),
        if prefix == 0 && operations@.len() != 0 {
            &&& step == DrainStep::Done
            &&& final(connections)@ == evidence_kept(old(connections)@, token, evidence, now)
        } else {
            &&& step == DrainStep::Reclaim { evidence, operations, accepted, prefix }
            &&& final(connections)@ == old(connections)@
        },
{
    if prefix == 0 && operations.len() != 0 {
        if let Some(connection) = connections.connection_mut(token) {
            connection.store_qp_reclamation_proof(evidence);
        }
        schedule_connection_drain(connections, token, 0, now);
        return DrainStep::Done;
    }
    DrainStep::Reclaim { evidence, operations, accepted, prefix }
}

/// The error that reclaimed operations end with, if the evidence is of this
/// connection's own queue pair; mismatched evidence reclaims nothing.
pub fn reclamation_error(
    connections: &ConnectionRegistry,
    token: ConnectionToken,
    evidence: &QpDestructionProof,
) -> (error: Option<Error>)
    requires
        connections.wf(),
    ensures
        error == if connections@.connected(token) && evidence.proven_connection() == token
            && evidence.proven_qp_num() == connections@.connection(token).qp_num {
            Some(connections@.connection(token).close_error())
        } else {
            None
        },
{
    match connections.connection(token) {
        Some(connection) => if evidence.connection() == token && evidence.qp_num()
            == connection.qp_num {
            Some(connection.operation_close_error())
        } else {
            None
        },
        None => None,
    }
}

/// How many copied completions may be rejected now: each can publish three times.
pub open spec fn reject_quantum(room: nat) -> usize {
    (reclaim_room(room) / 3) as usize
}

/// Goes on with a drain deadline once the first `prefix` of its `operations` were
/// reclaimed. Accepted work that was not attempted keeps the evidence for later.
pub fn drain_reclaimed(
    connections: &mut ConnectionRegistry,
    token: ConnectionToken,
    evidence: QpDestructionProof,
    operations: usize,
    accepted: usize,
    prefix: usize,
    now: u64,
    actions: &ReactorActions,
) -> (step: DrainStep)
    requires
        old(connections).wf(),
        old(connections)@.connected(token),
        old(connections)@.connection(token).qp_reclamation_proof is None,
    ensures
        final(connections).wf(),
        if ConnectionRegistry::accepted_of(old(connections)@, token) != 0 && (prefix < operations
            || operations < accepted) {
            &&& step == DrainStep::Done
            &&& final(connections)@ == evidence_kept(old(connections)@, token, evidence, now)
        } else {
            &&& step == DrainStep::RejectQueued { quantum: reject_quantum(actions.room()) }
            &&& final(connections)@ == old(connections)@
        },
{
    if connections.accepted_count(token) != 0 && (prefix < operations || operations < accepted) {
        if let Some(connection) = connections.connection_mut(token) {
            connection.store_qp_reclamation_proof(evidence);
        }
        schedule_connection_drain(connections, token, 0, now);
        return DrainStep::Done;
    }
    DrainStep::RejectQueued { quantum: actions.remaining().saturating_sub(DRAIN_RESERVE) / 3 }
}

/// Goes on with a drain deadline once copied completions were rejected; any that
/// remain take their ordinary turn first.
pub fn drain_rejected(
    connections: &mut ConnectionRegistry,
    token: ConnectionToken,
    remains_ready: bool,
    now: u64,
) -> (step: DrainStep)
    requires
        old(connections).wf(),
    ensures
        final(connections).wf(),
        if remains_ready {
            &&& step == DrainStep::PublishConnection
            &&& final(connections)@ == drain_scheduled(old(connections)@, token, 0, now)
        } else {
            &&& step == DrainStep::BeginQuarantine
            &&& final(connections)@ == old(connections)@
        },
{
    if remains_ready {
        schedule_connection_drain(connections, token, 0, now);
        DrainStep::PublishConnection
    } else {
        DrainStep::BeginQuarantine
    }
}

/// The registry after the quarantine of a bundle was lifted, where it was there.
pub open spec fn quarantine_recovered(view: RegistryView, token: ConnectionToken) -> RegistryView {
    if view.has(token) && view.entry(token).quarantine == Some(true) {
        view.set(token, ConnectionRegistry::bundle_cleared(view.entry(token)))
    } else {
        view
    }
}

/// The registry once a drain ended: a closing connection without accepted work
/// leaves quarantine, is drained and goes to retirement.
pub open spec fn drain_settled(view: RegistryView, token: ConnectionToken) -> RegistryView {
    if view.has(token) && view.entry(token).close_started() && ConnectionRegistry::accepted_of(
        view,
        token,
    ) == 0 {
        retirement_requested(drained(quarantine_recovered(view, token), token), token)
    } else {
        view
    }
}

/// Ends a drain.
pub fn settle_drain(connections: &mut ConnectionRegistry, token: ConnectionToken)
    requires
        old(connections).wf(),
    ensures
        final(connections).wf(),
        final(connections)@ == drain_settled(old(connections)@, token),
{
    if connections.close_started(token) && connections.accepted_count(token) == 0 {
        let _ = connections.clear_bundle_quarantine(token);
        let _ = connections.mark_drained_once(token);
        let _ = connections.request_retirement(token);
    }
}

/// What the I/O side reports of work that it quarantined.
#[derive(Clone, Copy, Debug, PartialEq, Eq, Structural)]
pub struct IoQuarantineReport {
    pub outstanding_operations: usize,
    pub cq_debt: usize,
}

/// The registry once accepted work of a connection was quarantined.
pub open spec fn drain_quarantined(
    view: RegistryView,
    token: ConnectionToken,
    report: IoQuarantineReport,
) -> RegistryView {
    let held = if ConnectionRegistry::bundle_open(view, token) {
        view.set(token, view.entry(token).bundle_quarantined())
    } else {
        view
    };
    held.set_connection(
        token,
        held.connection(token).with_close_result(
            crate::terminal::MemoizedTerminalResult::Failed(
                Error::ConnectionQuarantined {
                    outstanding_operations: report.outstanding_operations,
                    cq_debt: report.cq_debt,
                },
            ),
        ),
    )
}

/// Goes on with a drain deadline once the I/O side was asked to quarantine what is
/// still accepted.
pub fn drain_quarantine_begun(
    connections: &mut ConnectionRegistry,
    token: ConnectionToken,
    report: Option<IoQuarantineReport>,
    actions: &mut ReactorActions,
) -> (step: DrainStep)
    requires
        old(connections).wf(),
        old(connections)@.connected(token),
    ensures
        final(connections).wf(),
        match report {
            None => {
                &&& step == DrainStep::Done
                &&& final(connections)@ == drain_settled(old(connections)@, token)
                &&& final(actions)@ == old(actions)@
            },
            Some(report) => {
                let quarantined = drain_quarantined(old(connections)@, token, report);
                let connection = old(connections)@.connection(token);
                &&& final(actions)@ == old(actions)@.push(
                    Action::WakeClose { connection: connection.token },
                ).push(
                    Action::IoEvent {
                        connection: token,
                        event: IoTerminalEvent::Terminal(
                            Error::ConnectionQuarantined {
                                outstanding_operations: report.outstanding_operations,
                                cq_debt: report.cq_debt,
                            },
                        ),
                    },
                )
                &&& if connection.quarantine_scan_complete {
                    &&& step == DrainStep::Done
                    &&& final(connections)@ == drain_settled(quarantined, token)
                } else {
                    &&& step == DrainStep::ScanQuarantine {
                        slot: connection.quarantine_scan_slot,
                        budget: OPERATION_SCAN_BUDGET,
                        settle: true,
                    }
                    &&& final(connections)@ == quarantined
                }
            },
        },
        final(actions)@.len() <= old(actions)@.len() + STEP_PUBLICATIONS,
{
    if let Some(report) = report {
        let _ = connections.track_bundle_quarantine(token);
        if let Some(connection) = connections.connection_mut(token) {
            let event = connection.publish_quarantine_into(
                report.outstanding_operations,
                report.cq_debt,
                actions,
            );
            actions.push(Action::IoEvent { connection: token, event });
            if !connection.quarantine_scan_complete {
                return DrainStep::ScanQuarantine {
                    slot: connection.quarantine_scan_slot,
                    budget: OPERATION_SCAN_BUDGET,
                    settle: true,
                };
            }
        }
    }
    settle_drain(connections, token);
    DrainStep::Done
}

/// The registry with the progress of a quarantine scan recorded.
pub open spec fn quarantine_scanned(
    view: RegistryView,
    token: ConnectionToken,
    next: usize,
    complete: bool,
) -> RegistryView {
    if view.connected(token) {
        view.set_connection(
            token,
            ConnectionState {
                quarantine_scan_slot: next,
                quarantine_scan_complete: complete,
                ..view.connection(token)
            },
        )
    } else {
        view
    }
}

/// Ends a drain deadline once operations were quarantined up to `next`.
pub fn drain_quarantine_scanned(
    connections: &mut ConnectionRegistry,
    token: ConnectionToken,
    next: usize,
    complete: bool,
    settle: bool,
    now: u64,
)
    requires
        old(connections).wf(),
    ensures
        final(connections).wf(),
        ({
            let scanned = quarantine_scanned(old(connections)@, token, next, complete);
            final(connections)@ == if !complete {
                drain_scheduled(scanned, token, 0, now)
            } else if settle {
                drain_settled(scanned, token)
            } else {
                scanned
            }
        }),
{
    if let Some(connection) = connections.connection_mut(token) {
        connection.update_quarantine_operation_scan(next, complete);
    }
    if !complete {
        schedule_connection_drain(connections, token, 0, now);
    } else if settle {
        settle_drain(connections, token);
    }
}

} // verus!
