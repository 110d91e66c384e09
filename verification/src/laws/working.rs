//! How a session takes up its work, and how it ends.

use vstd::prelude::*;

use crate::actions::{Action, IoTerminalEvent};
use crate::cm::{detail_text, is_contextual, CmSoftwareClass, PendingCmDestruction};
use crate::deadlines::{in_order, queued, QueuedDeadline, SessionDeadline};
use crate::error::{Error, WcStatus};
use crate::laws::searching::connect_over;
use crate::laws::terms::others_kept;
use crate::progress::{
    connection_end_told, connection_ended, deadline_reserve, fewer, queued_all, shutdown_limits,
    SourcesView,
};
use crate::registry::{
    DeadlineKind, DeadlineRequest, Lifecycle, LiveIoConnectionProof, RegistryView,
};
use crate::service::{may_step, work_taken, ReadinessPoll, ReadinessStep, SoftwareWork};
use crate::session::{
    admission_refusal, close_observation, drain_applied, drains_applied, effect_applied,
    effects_applied, live_evidence, OperationQuarantineEffect,
};
use crate::shutdown::{
    issuance_complete, limited, outcome_fits, shutdown_unit, CmShutdownClass, CmShutdownSnapshot,
    ShutdownView, UnitEnd,
};
use crate::slots::SlotsView;
use crate::tables::TablesView;
use crate::terminal::{MemoizedTerminalResult, TakeOnceResult};
use crate::token::{ConnectionToken, SlotToken};

verus! {

/// The oldest work of a class is taken, and taken out; without work nothing is taken
/// and nothing changes. At most one connect is set up at a time. What needs the
/// engine's resources is refused without them, even where nothing waits.
pub proof fn the_oldest_work_is_taken(
    before: TablesView,
    after: TablesView,
    class: CmSoftwareClass,
    has_resources: bool,
    work: Result<Option<SoftwareWork>, Error>,
)
    requires
        work_taken(before, after, class, has_resources, work),
    ensures
        class is Cancellation ==> {
            let queue = before.connections.cancellations;
            &&& queue.len() > 0 ==> {
                &&& work matches Ok(Some(SoftwareWork::Cancellation(request))) && request
                    == queue[0]
                &&& seq![queue[0]] + after.connections.cancellations =~= queue
            }
            &&& queue.len() == 0 ==> work == Ok::<Option<SoftwareWork>, Error>(None) && after
                == before
        },
        class is Retirement ==> {
            let queue = before.connections.retirements;
            &&& queue.len() > 0 ==> {
                &&& work matches Ok(Some(SoftwareWork::Retirement(token))) && token == queue[0]
                &&& seq![queue[0]] + after.connections.retirements =~= queue
            }
            &&& queue.len() == 0 ==> work == Ok::<Option<SoftwareWork>, Error>(None) && after
                == before
        },
        class is OutboundStart && has_resources ==> {
            let queue = before.connections.pending_outbound;
            &&& queue.len() > 0 && !before.connections.setup_active ==> {
                &&& work matches Ok(Some(SoftwareWork::OutboundStart { request, reservation }))
                    && request == queue[0].0 && reservation == queue[0].1
                &&& seq![queue[0]] + after.connections.pending_outbound =~= queue
                &&& after.connections.setup_active
            }
            &&& queue.len() == 0 || before.connections.setup_active ==> work == Ok::<
                Option<SoftwareWork>,
                Error,
            >(None) && after == before
        },
        class is ListenStart && has_resources ==> {
            let queue = before.cm.pending_listens;
            &&& queue.len() > 0 ==> {
                &&& work matches Ok(Some(SoftwareWork::ListenStart { listener, request }))
                    && listener == queue[0].0 && request == queue[0].1
                &&& seq![queue[0]] + after.cm.pending_listens =~= queue
            }
            &&& queue.len() == 0 ==> work == Ok::<Option<SoftwareWork>, Error>(None) && after
                == before
        },
        class is ListenerWork && has_resources ==> {
            let queue = before.cm.listener_work;
            &&& queue.len() > 0 ==> {
                &&& work matches Ok(Some(SoftwareWork::ListenerWork(listener))) && listener
                    == queue[0]
                &&& seq![queue[0]] + after.cm.listener_work =~= queue
                &&& before.cm.listeners.has(queue[0]) ==> after.cm.listeners.has(queue[0])
                    && !after.cm.listeners.entry(queue[0])@.work_enqueued
            }
            &&& queue.len() == 0 ==> work == Ok::<Option<SoftwareWork>, Error>(None) && after
                == before
        },
        !has_resources && (class is OutboundStart || class is ListenStart || class is ListenerWork)
            ==> work is Err && after == before,
        after.connections.slots == before.connections.slots,
        after.connects == before.connects,
        after.listens == before.listens,
        after.accepts == before.accepts,
        after.cm.routes == before.cm.routes,
        after.cm.destructions == before.cm.destructions,
{
}

/// A step is begun only within its budget and with room for all that one step may
/// publish.
pub proof fn a_step_fits_its_budget(processed: usize, budget: usize, room: nat)
    ensures
        may_step(processed, budget, room) <==> processed < budget && room >= 8,
        may_step(processed, budget, room) ==> processed + 1 <= budget,
{
}

/// A command is refused once the session has ended: with its failure, if it has one;
/// and else as the command queue says, or because there is none. It is admitted only
/// where nothing refuses it.
pub proof fn an_ended_session_refuses(
    outcome: Option<MemoizedTerminalResult>,
    commands: Option<Option<Error>>,
)
    ensures
        outcome matches Some(MemoizedTerminalResult::Failed(error)) ==> admission_refusal(
            outcome,
            commands,
        ) == Some(error),
        outcome == Some(MemoizedTerminalResult::Success) ==> admission_refusal(
            outcome,
            commands,
        ) is None,
        outcome is None && commands is None ==> admission_refusal(outcome, commands) == Some(
            Error::DriverShutdown,
        ),
        outcome is None && commands is Some ==> admission_refusal(outcome, commands)
            == commands->0,
{
}

/// Who waits for a close sees the connection's own outcome first, and else that of the
/// engine.
pub proof fn ones_own_outcome_comes_first(
    own: Option<MemoizedTerminalResult>,
    engine: Option<MemoizedTerminalResult>,
)
    ensures
        own == Some(MemoizedTerminalResult::Success) ==> close_observation(own, engine) == Some(
            Ok::<(), Error>(()),
        ),
        own matches Some(MemoizedTerminalResult::Failed(error)) ==> close_observation(own, engine)
            == Some(Err::<(), Error>(error)),
        own is None && engine == Some(MemoizedTerminalResult::Success) ==> close_observation(
            own,
            engine,
        ) == Some(Ok::<(), Error>(())),
        own is None ==> (engine matches Some(MemoizedTerminalResult::Failed(error))
            ==> close_observation(own, engine) == Some(Err::<(), Error>(error))),
        own is None && engine is None ==> close_observation(own, engine) is None,
{
}

/// An operation that the I/O side quarantines is put on its connection's list, and one
/// that it clears is taken off; the quarantine of the operations ends when it is
/// cleared, that of the bundle does not.
pub proof fn quarantined_operations_are_kept_in_step(
    before: RegistryView,
    after: RegistryView,
    connection: ConnectionToken,
    operation: SlotToken,
)
    requires
        before.connected(connection),
    ensures
        effect_applied(
            before,
            after,
            OperationQuarantineEffect::Added { connection, operation },
        ) && !(before.entry(connection).quarantine is None && before.entry(
            connection,
        ).lifecycle is Retired) ==> {
            &&& after.connected(connection)
            &&& after.connection(connection).io_ledger.quarantined@.contains(operation)
            &&& after.entry(connection).quarantine is Some
            &&& before.entry(connection).quarantine is Some ==> after.entry(connection).quarantine
                == before.entry(connection).quarantine
            &&& after.connection(connection).io_ledger.accepted == before.connection(
                connection,
            ).io_ledger.accepted
            &&& others_kept(before, after, connection)
        },
        effect_applied(
            before,
            after,
            OperationQuarantineEffect::Cleared { connection, operation },
        ) && before.entry(connection).quarantine is Some && before.connection(
            connection,
        ).io_ledger.quarantined@.contains(operation) ==> {
            &&& after.connected(connection)
            &&& after.connection(connection).io_ledger.quarantined@.len() + 1 == before.connection(
                connection,
            ).io_ledger.quarantined@.len()
            &&& before.entry(connection).quarantine == Some(false) ==> after.entry(
                connection,
            ).quarantine is None
            &&& before.entry(connection).quarantine == Some(true) ==> after.entry(
                connection,
            ).quarantine == Some(true)
            &&& after.connection(connection).io_ledger.accepted == before.connection(
                connection,
            ).io_ledger.accepted
            &&& others_kept(before, after, connection)
        },
        effect_applied(
            before,
            after,
            OperationQuarantineEffect::Cleared { connection, operation },
        ) && (before.entry(connection).quarantine is None || !before.connection(
            connection,
        ).io_ledger.quarantined@.contains(operation)) ==> after == before,
{
    if !before.connection(connection).io_ledger.quarantined@.contains(operation) {
        let held = after.connection(connection).io_ledger.quarantined@;
        if held.len() > 0 {
            assert(held[held.len() - 1] == held.last());
        }
    }
}

/// A connection that the I/O side reports as drained is recovered as far as its
/// operations let it, and asks for its retirement where its queue pair has failed.
pub proof fn a_reported_drain_retires(view: RegistryView, token: ConnectionToken)
    ensures
        view.connected(token) && (view.entry(token).lifecycle is Draining || view.entry(
            token,
        ).lifecycle is Retiring) ==> {
            let after = drain_applied(view, token);
            &&& after.connected(token)
            &&& after.connection(token).drained_recorded
            &&& (view.entry(token).quarantine is None || (view.entry(token).quarantine == Some(true)
                && view.connection(token).io_ledger.quarantined@.len() == 0)) && view.entry(
                token,
            ).lifecycle is Draining && view.connection(token).error_transition_complete ==> {
                &&& after.retirements =~= view.retirements + seq![token]
                &&& after.entry(token).lifecycle == (Lifecycle::Retiring { started: false })
            }
            &&& !(view.entry(token).lifecycle is Draining && view.connection(
                token,
            ).error_transition_complete) ==> after.retirements == view.retirements
        },
        !view.has(token) || !(view.entry(token).lifecycle is Draining || view.entry(
            token,
        ).lifecycle is Retiring) ==> drain_applied(view, token) == view,
{
}

/// A session is drained exactly where no connection, no listener, no queued work and no
/// identifier to destroy is left.
pub proof fn a_drained_session_is_empty(sources: SourcesView)
    requires
        sources.tables.connections.slots.tabled(),
        sources.tables.cm.listeners.slots.tabled(),
    ensures
        sources.drained() <==> {
            &&& sources.tables.connections.slots.entries =~= Map::empty()
            &&& sources.tables.cm.listeners.slots.entries =~= Map::empty()
            &&& sources.tables.connections.pending_outbound =~= Seq::empty()
            &&& sources.tables.connections.cancellations =~= Seq::empty()
            &&& sources.tables.connections.retirements =~= Seq::empty()
            &&& sources.tables.cm.pending_listens =~= Seq::empty()
            &&& sources.tables.cm.listener_work =~= Seq::empty()
            &&& sources.tables.cm.destructions =~= Seq::empty()
        },
{
    let entries = sources.tables.connections.slots.entries;
    let listeners = sources.tables.cm.listeners.slots.entries;
    vstd::set_lib::lemma_set_empty_equivalency_len(entries.dom());
    vstd::set_lib::lemma_set_empty_equivalency_len(listeners.dom());
    if sources.drained() {
        assert(entries =~= Map::empty());
        assert(listeners =~= Map::empty());
    }
}

/// A shutdown has asked everything to end exactly when it has begun, every connection,
/// route, listener and kept destruction was searched, and nothing waits for its start.
pub proof fn a_shutdown_asks_everything_to_end(sources: SourcesView)
    ensures
        sources.issuance_complete() <==> sources.shutdown_started && sources.connections_complete
            && sources.cursor.routes_complete && sources.cursor.listeners_complete
            && sources.cursor.destructions_complete
            && sources.tables.connections.pending_outbound.len() == 0
            && sources.tables.cm.pending_listens.len() == 0,
        ({
            let begun = sources.failure_begun();
            &&& begun.failure_scan_started
            &&& sources.failure_scan_started ==> begun == sources
            &&& !sources.failure_scan_started ==> {
                &&& begun.connection_slot == 0
                &&& !begun.connections_complete
                &&& begun.cursor.route_slot == 0
                &&& begun.cursor.listener_slot == 0
                &&& !begun.cursor.routes_complete
                &&& !begun.cursor.listeners_complete
                &&& !begun.cursor.destructions_complete
                &&& begun.cursor.destructions_remaining is None
                &&& begun.cursor.terminalized =~= Set::empty()
                &&& !begun.issuance_complete()
            }
            &&& begun.tables == sources.tables
            &&& begun.deadlines == sources.deadlines
        }),
{
}

/// The engine's end stops a connection, fails its queue pair if that was not tried yet,
/// and is its outcome where it has none; a bundle with operations out is quarantined.
/// Its waiters are woken and its I/O side learns why.
pub proof fn the_engines_end_ends_a_connection(
    view: RegistryView,
    token: ConnectionToken,
    outcome: MemoizedTerminalResult,
    reply: Result<(), Error>,
    actions: Seq<Action>,
)
    requires
        view.connected(token),
        outcome is Failed,
    ensures
        ({
            let after = connection_ended(view, token, outcome, reply);
            &&& after.connected(token)
            &&& after.connection(token).io_closed
            &&& after.connection(token).error_transition_started
            &&& after.connection(token).close_result == match view.connection(token).close_result {
                Some(earlier) => Some(earlier),
                None => Some(outcome),
            }
            &&& after.connection(token).close.engine_terminal == match view.connection(
                token,
            ).close.engine_terminal {
                Some(earlier) => Some(earlier),
                None => Some(outcome),
            }
            &&& view.connection(token).io_ledger.accepted@.len() != 0 && !(view.entry(
                token,
            ).quarantine is None && view.entry(token).lifecycle is Retired) ==> after.entry(
                token,
            ).quarantine == Some(true)
            &&& view.connection(token).io_ledger.accepted@.len() == 0 ==> after.entry(
                token,
            ).quarantine == view.entry(token).quarantine && after.connection(token).admission
                == view.connection(token).admission
            &&& after.entry(token).lifecycle == view.entry(token).lifecycle
            &&& after.entry(token).route == view.entry(token).route
            &&& after.connection(token).io_ledger == view.connection(token).io_ledger
            &&& others_kept(view, after, token)
        }),
        connection_end_told(view, token, outcome, actions) =~= actions + seq![
            Action::IoEvent {
                connection: token,
                event: IoTerminalEvent::Terminal(outcome->Failed_0),
            },
            Action::WakeClose { connection: view.connection(token).token },
        ],
{
}

/// What is not a connection the engine's end leaves alone.
pub proof fn the_engines_end_spares_what_is_no_connection(
    view: RegistryView,
    token: ConnectionToken,
    outcome: MemoizedTerminalResult,
    reply: Result<(), Error>,
    actions: Seq<Action>,
)
    requires
        !view.connected(token),
    ensures
        connection_ended(view, token, outcome, reply) == view,
        connection_end_told(view, token, outcome, actions) == actions,
{
}

/// Every deadline that was asked for is queued once, and the queue stays in order.
pub proof fn asked_deadlines_are_queued(
    queue: Seq<QueuedDeadline>,
    requests: Seq<DeadlineRequest>,
    i: int,
)
    requires
        in_order(queue),
        0 <= i < requests.len(),
    ensures
        in_order(queued_all(queue, requests)),
        queued_all(queue, requests).len() == queue.len() + requests.len(),
        exists|k: int|
            0 <= k < queued_all(queue, requests).len() && (#[trigger] queued_all(
                queue,
                requests,
            )[k]).at == requests[i].at && queued_all(queue, requests)[k].deadline.kind
                == requests[i].kind && queued_all(queue, requests)[k].deadline.token
                == requests[i].token,
    decreases requests.len(),
{
    let rest = requests.drop_last();
    let last = QueuedDeadline {
        at: requests.last().at,
        deadline: SessionDeadline { kind: requests.last().kind, token: requests.last().token },
    };
    let earlier = queued_all(queue, rest);
    if rest.len() > 0 {
        asked_deadlines_are_queued(
            queue,
            rest,
            if i < rest.len() {
                i
            } else {
                0
            },
        );
    }
    crate::deadlines::added_deadlines_stay_in_order(earlier, last);
    crate::laws::timing::deadlines_of_one_instant_keep_their_order(earlier, last);
    let after = queued(earlier, last);
    assert(queued_all(queue, requests) == after);
    let place = choose|place: int|
        0 <= place <= earlier.len() && #[trigger] after[place] == last && after.remove(place)
            == earlier;
    if i < rest.len() {
        let k = choose|k: int|
            0 <= k < earlier.len() && (#[trigger] earlier[k]).at == rest[i].at
                && earlier[k].deadline.kind == rest[i].kind && earlier[k].deadline.token
                == rest[i].token;
        assert(after.remove(place)[k] == earlier[k]);
        if k < place {
            assert(after[k] == earlier[k]);
        } else {
            assert(after[k + 1] == earlier[k]);
        }
    }
}

/// A drain keeps two publications in reserve; the end of a shutdown's time needs none.
/// A part never exceeds what there is, nor its budget, and falls short of both never.
pub proof fn parts_are_bounded(kind: DeadlineKind, a: nat, b: nat, budget: usize)
    ensures
        kind is ConnectionDrain ==> deadline_reserve(kind) == 2,
        kind is EngineShutdown ==> deadline_reserve(kind) == 0,
        fewer(a, b) <= a && fewer(a, b) <= b,
        fewer(a, b) == a || fewer(a, b) == b,
        limited(a, budget) <= a && limited(a, budget) <= budget,
        limited(a, budget) == a || limited(a, budget) == budget,
{
}

/// A turn of a shutdown looks at every class that has something left, and at no other:
/// as many units as are known to wait, within the budget.
pub proof fn a_turn_looks_at_what_is_left(view: SourcesView, limits: CmShutdownSnapshot)
    requires
        shutdown_limits(view, limits),
        view.cm_budget > 0,
    ensures
        limits.limits@[0] == 0 <==> view.tables.connections.pending_outbound.len() == 0,
        limits.limits@[1] == 0 <==> view.cursor.routes_complete,
        limits.limits@[2] == 0 <==> view.tables.cm.pending_listens.len() == 0,
        limits.limits@[3] == 0 <==> view.cursor.listeners_complete,
        limits.limits@[4] == 0 <==> view.terminal_outcome is None
            || view.cursor.destructions_complete,
        limits.limits@[0] <= view.cm_budget && limits.limits@[1] <= view.cm_budget
            && limits.limits@[2] <= view.cm_budget && limits.limits@[3] <= view.cm_budget
            && limits.limits@[4] <= view.cm_budget,
        !view.cursor.routes_complete ==> limits.limits@[1] == view.cm_budget,
        !view.cursor.listeners_complete ==> limits.limits@[3] == view.cm_budget,
        view.tables.connections.pending_outbound.len() <= view.cm_budget ==> limits.limits@[0]
            == view.tables.connections.pending_outbound.len(),
        view.tables.cm.pending_listens.len() <= view.cm_budget ==> limits.limits@[2]
            == view.tables.cm.pending_listens.len(),
        view.terminal_outcome is Some && !view.cursor.destructions_complete ==> (
        view.cursor.destructions_remaining matches Some(count) ==> (0 < count <= view.cm_budget
            ==> limits.limits@[4] == count)),
        view.terminal_outcome is Some && !view.cursor.destructions_complete
            && view.cursor.destructions_remaining is None && 0 < view.tables.cm.destructions.len()
            <= view.cm_budget ==> limits.limits@[4] == view.tables.cm.destructions.len(),
{
}

/// A unit of a shutdown that ends a connect waiting for its start takes the oldest, ends
/// it, tells its waiter and leaves the rest in order; without any it stops.
pub proof fn a_shutdown_ends_waiting_starts(
    before: ShutdownView,
    after: ShutdownView,
    error: Error,
    terminalize: bool,
    end: UnitEnd,
)
    requires
        shutdown_unit(
            before,
            after,
            CmShutdownClass::PendingOutbound,
            MemoizedTerminalResult::Failed(error),
            terminalize,
            end,
        ),
    ensures
        ({
            let pending = before.tables.connections.pending_outbound;
            &&& pending.len() == 0 ==> end is Stop && after == before
            &&& pending.len() > 0 ==> {
                let request = pending[0].0;
                &&& end is Next
                &&& seq![pending[0]] + after.tables.connections.pending_outbound =~= pending
                &&& connect_over(after.tables.connects, request)
                &&& before.tables.connects.entries.contains_key(request)
                    ==> after.tables.connects.entries.contains_key(request)
                &&& before.tables.connects.entries.contains_key(request)
                    && before.tables.connects.entries[request].completion.result is Pending ==> {
                    &&& after.tables.connects.entries[request].completion.result
                        == TakeOnceResult::<SlotToken>::Ready(Err(error))
                    &&& after.actions =~= before.actions + seq![Action::WakeConnect { request }]
                }
                &&& after.tables.connects.entries.remove(request)
                    =~= before.tables.connects.entries.remove(request)
                &&& after.tables.connections.slots == before.tables.connections.slots
                &&& after.tables.cm == before.tables.cm
                &&& after.cursor == before.cursor
            }
        }),
{
    reveal(shutdown_unit);
}

/// A unit of a shutdown that ends a listen waiting for its start takes the oldest,
/// answers it with the error, and takes its listener out; without any it stops.
pub proof fn a_shutdown_ends_waiting_listens(
    before: ShutdownView,
    after: ShutdownView,
    error: Error,
    terminalize: bool,
    end: UnitEnd,
)
    requires
        shutdown_unit(
            before,
            after,
            CmShutdownClass::PendingListen,
            MemoizedTerminalResult::Failed(error),
            terminalize,
            end,
        ),
    ensures
        ({
            let pending = before.tables.cm.pending_listens;
            &&& pending.len() == 0 ==> end is Stop && after == before
            &&& pending.len() > 0 ==> {
                let (listener, request) = pending[0];
                &&& end is Next
                &&& seq![pending[0]] + after.tables.cm.pending_listens =~= pending
                &&& !after.tables.cm.listeners.has(listener)
                &&& before.tables.listens.entries.contains_key(request)
                    && before.tables.listens.entries[request].completion.result is Pending ==> {
                    &&& after.tables.listens.entries[request].completion.result
                        == TakeOnceResult::<SlotToken>::Ready(Err(error))
                    &&& after.actions =~= before.actions + seq![Action::WakeListen { request }]
                }
                &&& after.tables.listens.entries.remove(request)
                    =~= before.tables.listens.entries.remove(request)
                &&& after.tables.connections == before.tables.connections
                &&& after.cursor == before.cursor
            }
        }),
{
    reveal(shutdown_unit);
}

/// The errors of a shutdown fit what it ends: only a failure ends what waits; a search
/// of listeners that only asks them to close goes with a success too.
pub proof fn only_a_failure_ends_what_waits(
    outcome: MemoizedTerminalResult,
    class: CmShutdownClass,
    terminalize: bool,
)
    ensures
        outcome is Failed ==> outcome_fits(outcome, class, terminalize),
        outcome is Success && terminalize ==> !outcome_fits(outcome, class, terminalize),
        outcome is Success && !terminalize ==> (outcome_fits(outcome, class, terminalize)
            <==> class is Listeners || class is RetainedListeners),
        UnitEnd::Next.units() == 1 && UnitEnd::Last.units() == 1 && UnitEnd::Stop.units() == 0,
        UnitEnd::Next.goes_on() && !UnitEnd::Last.goes_on() && !UnitEnd::Stop.goes_on(),
{
}

/// An error that is told with its context keeps its kind and its words, behind the
/// context; one that is no error of the provider becomes an invalid configuration.
pub proof fn context_goes_before_the_words(context: Seq<char>, error: Error, told: Error)
    requires
        is_contextual(context, error, told),
    ensures
        error is Verbs <==> told is Verbs,
        error matches Error::Verbs(source) ==> (told matches Error::Verbs(with_context)
            ==> with_context.kind == source.kind && with_context.message@ == context + ": "@
            + source.message@),
        !(error is Verbs) ==> (told matches Error::InvalidConfig(message) && message@ == context
            + ": "@ + error.text()),
        error matches Error::InvalidConfig(message) ==> detail_text(error) == message@,
        error matches Error::Verbs(source) ==> detail_text(error) == source.message@,
        error matches Error::PostFailed(source) ==> detail_text(error) == source.message@,
        error matches Error::ProtocolViolation(message) ==> detail_text(error) == message@,
{
}

/// Every status has a number of its own, and a number that is nobody's stays what it is.
pub proof fn statuses_are_told_apart(a: u32, b: u32)
    ensures
        WcStatus::of_raw(a) == WcStatus::of_raw(b) ==> a == b,
        a > 21 ==> WcStatus::of_raw(a) == WcStatus::Unknown(a),
        a <= 21 ==> !(WcStatus::of_raw(a) is Unknown),
        WcStatus::of_raw(a) is Success <==> a == 0,
        WcStatus::of_raw(a) is WrFlushErr <==> a == 5,
        WcStatus::of_raw(a) is RetryExcErr <==> a == 12,
        WcStatus::of_raw(a) is RnrRetryExcErr <==> a == 13,
        WcStatus::of_raw(a) is GeneralErr <==> a == 21,
{
}

/// Readiness is polled for no more events than the budget allows, and for all of those.
pub proof fn readiness_is_served_up_to_the_budget(poll: ReadinessPoll)
    requires
        poll.wf(),
    ensures
        poll.processed < poll.budget ==> poll.next_try() is TryOne,
        poll.processed == poll.budget ==> poll.next_try() == ReadinessStep::Ready(
            Ok(poll.processed),
        ),
{
}

/// Evidence of live I/O is given for the connection that the index leads to, and names
/// it and its queue pair; there is none for any other.
pub proof fn live_evidence_names_its_connection(
    view: RegistryView,
    connection: ConnectionToken,
    qp_num: u32,
    evidence: Option<LiveIoConnectionProof>,
)
    requires
        live_evidence(view, connection, qp_num, evidence),
    ensures
        evidence is Some <==> view.connected(connection) && view.connection(connection).qp_num
            == qp_num && view.qp_index.contains_key(qp_num) && view.qp_index[qp_num] == connection,
        evidence matches Some(held) ==> held.token() == connection && held.queue_pair() == qp_num,
{
}

/// Drains are taken in one after the other, in the order in which they were reported.
pub proof fn reported_drains_are_taken_in_turn(
    view: RegistryView,
    first: Seq<ConnectionToken>,
    token: ConnectionToken,
)
    ensures
        drains_applied(view, Seq::empty()) == view,
        drains_applied(view, first.push(token)) == drain_applied(
            drains_applied(view, first),
            token,
        ),
{
    assert(first.push(token).drop_last() =~= first);
}

/// Effects are taken in one after the other.
pub proof fn reported_effects_are_taken_in_turn(
    states: Seq<RegistryView>,
    effects: Seq<OperationQuarantineEffect>,
    i: int,
)
    requires
        effects_applied(states, effects),
        0 <= i < effects.len(),
    ensures
        states.len() == effects.len() + 1,
        effect_applied(states[i], states[i + 1], effects[i]),
{
}

/// A scan looks at as many slots as the budget allows and the table still has.
pub proof fn a_scan_looks_at_what_is_there<T>(slots: SlotsView<T>, start: int, budget: int)
    requires
        0 <= start,
        0 <= budget,
    ensures
        slots.scanned(start, budget) <= budget,
        start <= slots.marks.len() ==> start + slots.scanned(start, budget) <= slots.marks.len(),
        slots.scanned(start, budget) < budget ==> start + slots.scanned(start, budget)
            >= slots.marks.len(),
        start >= slots.marks.len() ==> slots.scanned(start, budget) == 0,
{
}

/// A unit of the search of kept destructions, which only a failure makes, goes through
/// them in turn and loses none: each goes to the back of the queue, until every one has
/// had its turn.
pub proof fn kept_destructions_take_turns(
    before: ShutdownView,
    after: ShutdownView,
    outcome: MemoizedTerminalResult,
    terminalize: bool,
    end: UnitEnd,
)
    requires
        shutdown_unit(
            before,
            after,
            CmShutdownClass::RetainedListeners,
            outcome,
            terminalize,
            end,
        ),
        before.tables.cm.destructions.len() <= usize::MAX,
    ensures
        ({
            let queue = before.tables.cm.destructions;
            let left = match before.cursor.destructions_remaining {
                Some(count) => count as int,
                None => queue.len() as int,
            };
            &&& !terminalize || before.cursor.destructions_complete ==> end is Stop && after
                == before
            &&& terminalize && !before.cursor.destructions_complete && (left == 0 || queue.len()
                == 0) ==> {
                &&& end is Stop
                &&& after.cursor.destructions_complete
                &&& after.tables == before.tables
            }
            &&& terminalize && !before.cursor.destructions_complete && left > 0 && queue.len() > 0
                ==> {
                &&& !(end is Stop)
                &&& after.tables.cm.destructions =~= queue.skip(1) + seq![queue[0]]
                &&& end is Next ==> {
                    &&& after.cursor.destructions_remaining == Some((left - 1) as usize)
                    &&& after.cursor.destructions_complete <==> left == 1
                }
                &&& end is Next ==> (queue[0] matches PendingCmDestruction::Listener {
                    listener,
                    ..
                } ==> after.cursor.terminalized.contains(listener.encoded() as u64))
                &&& end is Last ==> after.cursor.destructions_remaining == Some(left as usize)
                &&& !(queue[0] is Listener) ==> after.tables.cm.listeners
                    == before.tables.cm.listeners && after.tables.accepts == before.tables.accepts
            }
            &&& after.tables.connections == before.tables.connections
            &&& after.tables.connects == before.tables.connects
            &&& after.tables.listens == before.tables.listens
            &&& after.tables.cm.listener_work == before.tables.cm.listener_work
        }),
{
    reveal(shutdown_unit);
}

} // verus!
