//! How a connection comes to its end: its close, its drain, its quarantine, and what
//! its waiters see.

use vstd::prelude::*;

use crate::actions::{Action, IoTerminalEvent};
use crate::admission::{
    counts_in, BundleCount, BundleMark, ConnectionReservation, ConnectionStateCountSnapshot,
    ReservationState,
};
use crate::connection::{ConnectionPoster, ConnectionState, QpDestroyStatus};
use crate::drain::{
    accepted_prefix, close_settled, drain_quarantined, drain_settled, drained, evidence_taken,
    observers_come_first, observers_scanned, quarantine_scanned, reclaim_room, reject_quantum,
    scan_budget, transition_failed, IoQuarantineReport,
};
use crate::error::Error;
use crate::laws::terms::others_kept;
use crate::registry::{
    bundles_in, ConnectionEntry, ConnectionRegistry, Lifecycle, RegistryView,
};
use crate::requests::{AcceptRequest, CommandCompletion};
use crate::routes::{InboundState, OutboundState, Route};
use crate::terminal::{MemoizedTerminalResult, SessionCloseState, TakeOnceResult};
use crate::token::{ConnectionToken, OperationToken, SlotToken};

verus! {

/// Whether a result tells of a quarantine, of operations or of a destruction.
pub open spec fn tells_of_quarantine(result: MemoizedTerminalResult) -> bool {
    result matches MemoizedTerminalResult::Failed(error) && (error is ConnectionQuarantined
        || error is ConnectionDestroyQuarantined)
}

/// A waiter for the close of a connection sees an ordinary outcome only once the
/// connection is retired; before that, what became of the engine. A quarantine it sees
/// at once.
pub proof fn a_close_shows_when_it_is_over(close: SessionCloseState)
    ensures
        close.outcome is Some && tells_of_quarantine(close.outcome->0) ==> close.visible()
            == close.outcome,
        close.outcome is Some && close.retired ==> close.visible() == close.outcome,
        close.outcome is Some && !tells_of_quarantine(close.outcome->0) && !close.retired
            ==> close.visible() == close.engine_terminal,
        close.outcome is None ==> close.visible() == close.engine_terminal,
{
}

/// The first outcome of a close stays, except that a quarantine replaces it; nothing
/// else of the close changes.
pub proof fn the_first_outcome_stays(close: SessionCloseState, result: MemoizedTerminalResult)
    ensures
        close.outcome is None ==> close.published(result).outcome == Some(result),
        tells_of_quarantine(result) ==> close.published(result).outcome == Some(result),
        close.outcome is Some && !tells_of_quarantine(result) ==> close.published(result) == close,
        close.published(result).engine_terminal == close.engine_terminal,
        close.published(result).retired == close.retired,
        close.published(result).published(result) == close.published(result),
        result.result() is Ok <==> result is Success,
        result matches MemoizedTerminalResult::Failed(error) ==> result.result() == Err::<
            (),
            Error,
        >(error) && result.failure() == Some(error),
        result is Success ==> result.failure() is None,
{
}

/// A command is answered once: a second answer changes nothing; a taken answer is
/// gone. A cancellation leaves neither a pending answer nor a success, and keeps an
/// error and what was taken.
pub proof fn a_command_is_answered_once(
    command: CommandCompletion,
    first: Result<SlotToken, Error>,
    second: Result<SlotToken, Error>,
    error: Error,
)
    ensures
        command.completed(first).completed(second) == command.completed(first),
        command.result is Pending ==> command.completed(first).result == TakeOnceResult::Ready(
            first,
        ),
        !(command.result is Pending) ==> command.completed(first) == command,
        command.completed(first).cancelled == command.cancelled,
        command.cancelled_with(error).cancelled,
        command.result is Pending || (command.result matches TakeOnceResult::Ready(Ok(_)))
            ==> command.cancelled_with(error).result == TakeOnceResult::<SlotToken>::Ready(
            Err(error),
        ),
        command.result is Taken ==> command.cancelled_with(error).result is Taken,
        command.result matches TakeOnceResult::Ready(Err(_)) ==> command.cancelled_with(
            error,
        ).result == command.result,
        command.result is Ready ==> command.taken().result is Taken,
        !(command.result is Ready) ==> command.taken() == command,
        command.taken().cancelled == command.cancelled,
{
}

/// An accept is answered once, and fails over a success that nobody took. To take a
/// success is to have the connection delivered; to take an error is not.
pub proof fn an_accept_is_answered_once(
    request: AcceptRequest,
    first: Result<ConnectionToken, Error>,
    second: Result<ConnectionToken, Error>,
    error: Error,
)
    ensures
        request.completed(first).completed(second) == request.completed(first),
        request.result is Pending ==> request.completed(first).result == TakeOnceResult::Ready(
            first,
        ),
        !(request.result is Pending) ==> request.completed(first) == request,
        request.completed(first).delivered == request.delivered,
        request.result is Pending || (request.result matches TakeOnceResult::Ready(Ok(_)))
            ==> request.failed(error).result == TakeOnceResult::<ConnectionToken>::Ready(
            Err(error),
        ),
        request.result is Taken || (request.result matches TakeOnceResult::Ready(Err(_)))
            ==> request.failed(error) == request,
        request.failed(error).delivered == request.delivered,
        request.failed(error).cancelled == request.cancelled,
        request.failed(error).permit == request.permit,
        request.result is Ready ==> request.taken().result is Taken,
        request.result matches TakeOnceResult::Ready(Ok(_)) ==> request.taken().delivered,
        request.result matches TakeOnceResult::Ready(Err(_)) ==> request.taken().delivered
            == request.delivered,
        !(request.result is Ready) ==> request.taken() == request,
        request.taken().permit == request.permit,
        request.undelivered_success() <==> !request.delivered
            && request.result matches TakeOnceResult::Ready(Ok(_)),
{
}

/// A connection is closed with the first reason that it got; whatever closes it stops
/// its I/O.
pub proof fn a_connection_closes_with_its_first_reason(
    connection: ConnectionState,
    error: Error,
    outcome: MemoizedTerminalResult,
)
    ensures
        connection.cm_failed(error).io_closed,
        connection.close_result is None ==> {
            &&& connection.cm_failed(error).close_result == Some(
                MemoizedTerminalResult::Failed(error),
            )
            &&& connection.cm_failed(error).close_error() == error
        },
        connection.close_result is Some ==> connection.cm_failed(error).close_result
            == connection.close_result,
        connection.close.outcome is None && connection.close_result is None
            ==> connection.cm_failed(error).close.outcome == Some(
            MemoizedTerminalResult::Failed(error),
        ),
        connection.cm_failed(error).token == connection.token,
        connection.cm_failed(error).qp_num == connection.qp_num,
        connection.cm_failed(error).admission == connection.admission,
        connection.cm_failed(error).poster == connection.poster,
        connection.cm_failed(error).io_ledger == connection.io_ledger,
        connection.engine_finalized(outcome).io_closed,
        outcome is Success ==> connection.engine_finalized(outcome).close_result
            == connection.close_result,
        outcome is Failed && connection.close_result is None ==> connection.engine_finalized(
            outcome,
        ).close_result == Some(outcome),
        outcome is Failed && connection.close_result is Some ==> connection.engine_finalized(
            outcome,
        ).close_result == connection.close_result,
        connection.retired().close.retired,
        connection.close_result is None ==> connection.retired().close_result == Some(
            MemoizedTerminalResult::Success,
        ),
        connection.close_result is Some ==> connection.retired().close_result
            == connection.close_result,
        connection.close_result is None && connection.close.outcome is None
            ==> connection.retired().close.visible() == Some(MemoizedTerminalResult::Success),
        connection.close_error() == match connection.close_result {
            Some(MemoizedTerminalResult::Failed(reason)) => reason,
            _ => Error::TransportClosed,
        },
        connection.closing().io_closed,
        connection.closing().close_result == connection.close_result,
        connection.closing().poster == connection.poster,
        connection.closing().io_ledger == connection.io_ledger,
{
}

/// The queue pair is moved to its error state at most once. That has succeeded if the
/// provider said so, or if there is no queue pair.
pub proof fn a_queue_pair_fails_once(
    connection: ConnectionState,
    reply: Result<(), Error>,
    again: Result<(), Error>,
)
    ensures
        connection.error_transitioned(reply).error_transition_started,
        connection.error_transition_started ==> connection.error_transitioned(reply) == connection,
        connection.error_transitioned(reply).error_transitioned(again)
            == connection.error_transitioned(reply),
        !connection.error_transition_started && reply is Ok ==> connection.error_transitioned(
            reply,
        ).error_transition_complete,
        !connection.error_transition_started && reply is Err && connection.poster.holds_qp()
            && !connection.error_transition_complete ==> !connection.error_transitioned(
            reply,
        ).error_transition_complete,
        !connection.error_transition_started && !connection.poster.holds_qp()
            ==> connection.error_transitioned(reply).error_transition_complete,
        connection.error_transition_needed() <==> !connection.error_transition_started
            && match connection.poster {
            ConnectionPoster::Synthetic { .. } => true,
            ConnectionPoster::Verbs(resources) => resources.has_qp,
        },
{
}

/// A queue pair is destroyed once: then it is recorded, no longer counted and no
/// longer held, and a further request says so. What the provider refused stays held
/// and is not recorded.
pub proof fn a_queue_pair_is_destroyed_once(
    connection: ConnectionState,
    reply: Result<bool, Error>,
    result: Result<QpDestroyStatus, Error>,
)
    requires
        connection.qp_destroy_answer(reply, result),
    ensures
        connection.after_qp_destroy(reply).io_closed,
        connection.qp_destroyed ==> {
            &&& result == Ok::<QpDestroyStatus, Error>(QpDestroyStatus::AlreadyDestroyed)
            &&& !connection.destruction_proven(reply)
            &&& connection.after_qp_destroy(reply).poster == connection.poster
            &&& connection.after_qp_destroy(reply).admission == connection.admission
        },
        !connection.qp_destroyed ==> match connection.poster {
            ConnectionPoster::Verbs(resources) => if !resources.has_qp {
                &&& result is Err
                &&& !connection.destruction_proven(reply)
                &&& !connection.after_qp_destroy(reply).qp_destroyed
                &&& connection.after_qp_destroy(reply).poster == connection.poster
            } else if reply is Ok {
                &&& result == Ok::<QpDestroyStatus, Error>(QpDestroyStatus::DestroyedNow)
                &&& connection.destruction_proven(reply)
                &&& connection.after_qp_destroy(reply).qp_destroyed
                &&& !connection.after_qp_destroy(reply).poster.holds_qp()
                &&& connection.after_qp_destroy(reply).poster.cm_owner() == resources.cm_owner
                &&& connection.admission is Some ==> connection.after_qp_destroy(
                    reply,
                ).admission is Some && !connection.after_qp_destroy(
                    reply,
                ).admission->0.qp_counted && connection.after_qp_destroy(reply).admission->0.state
                    == connection.admission->0.state
            } else {
                &&& result == Err::<QpDestroyStatus, Error>(reply->Err_0)
                &&& !connection.destruction_proven(reply)
                &&& !connection.after_qp_destroy(reply).qp_destroyed
                &&& connection.after_qp_destroy(reply).poster == connection.poster
                &&& connection.after_qp_destroy(reply).admission == connection.admission
            },
            ConnectionPoster::Synthetic { .. } => {
                &&& connection.destruction_proven(reply) <==> reply == Ok::<bool, Error>(true)
                &&& connection.after_qp_destroy(reply).qp_destroyed <==> reply == Ok::<
                    bool,
                    Error,
                >(true)
                &&& result is Ok <==> reply == Ok::<bool, Error>(true)
            },
        },
{
}

/// The resources of a connection are released together: the identifier goes only if
/// the queue pair did not refuse to go, and whatever the provider refuses stays whole.
pub proof fn resources_are_released_together(connection: ConnectionState, reply: Result<bool, Error>)
    ensures
        connection.after_resource_destroy(reply).io_closed,
        connection.qp_destroyed ==> {
            &&& connection.after_resource_destroy(reply).qp_destroyed
            &&& connection.after_resource_destroy(reply).poster.cm_owner() is None
        },
        !connection.qp_destroyed ==> match connection.poster {
            ConnectionPoster::Verbs(resources) => {
                &&& resources.has_qp && reply is Err ==> {
                    &&& connection.after_resource_destroy(reply).poster == connection.poster
                    &&& !connection.after_resource_destroy(reply).qp_destroyed
                    &&& connection.after_resource_destroy(reply).admission == connection.admission
                }
                &&& resources.has_qp && reply is Ok ==> {
                    &&& connection.after_resource_destroy(reply).qp_destroyed
                    &&& !connection.after_resource_destroy(reply).poster.holds_qp()
                    &&& connection.after_resource_destroy(reply).poster.cm_owner() is None
                }
                &&& !resources.has_qp ==> {
                    &&& !connection.after_resource_destroy(reply).qp_destroyed
                    &&& connection.after_resource_destroy(reply).poster.cm_owner() is None
                }
            },
            ConnectionPoster::Synthetic { .. } => connection.after_resource_destroy(
                reply,
            ).qp_destroyed <==> reply == Ok::<bool, Error>(true),
        },
{
}

/// A destruction that failed quarantines the close, with its cause, unless a
/// quarantine was told before.
pub proof fn a_failed_destruction_is_told(
    before: ConnectionState,
    after: ConnectionState,
    error: Error,
)
    requires
        before.destroy_quarantined(after, error),
    ensures
        after.close_result is Some,
        tells_of_quarantine(after.close_result->0),
        before.close_result is Some && tells_of_quarantine(before.close_result->0) ==> after
            == before,
        !(before.close_result is Some && tells_of_quarantine(before.close_result->0)) ==> {
            &&& after.close.outcome == after.close_result
            &&& after.close.visible() == after.close_result
            &&& after.close_result->0->Failed_0 is ConnectionDestroyQuarantined
            &&& after.close_result->0->Failed_0->cause@ == error.text()
        },
        after.io_ledger == before.io_ledger,
        after.admission == before.admission,
        after.poster == before.poster,
{
}

/// Quarantine keeps what it holds apart, and recovery undoes it: an established or
/// draining bundle comes back as it was. A quarantined bundle counts as such, a
/// draining one counts as draining whether or not it is quarantined, and an
/// establishing one does not come back.
pub proof fn quarantine_is_undone_by_recovery(state: ReservationState)
    ensures
        state is Establishing ==> state.quarantined() is QuarantinedEstablishing,
        state is Established ==> state.quarantined() is QuarantinedEstablished,
        state is Draining ==> state.quarantined() is QuarantinedDraining,
        state.is_quarantined() ==> state.quarantined() == state,
        state is Established || state is Draining ==> state.quarantined().recovered() == state,
        state is Establishing ==> state.quarantined().recovered() is QuarantinedEstablishing,
        !state.is_quarantined() ==> state.recovered() == state,
        state.quarantined().is_quarantined(),
        state is Established ==> state.draining() is Draining,
        state is QuarantinedEstablished ==> state.draining() is QuarantinedDraining,
        state is Established || state is QuarantinedEstablished ==> state.draining().rolled_back()
            == state,
        state is Draining ==> state.rolled_back() is Established,
        state is QuarantinedDraining ==> state.rolled_back() is QuarantinedEstablished,
        !(state is Established || state is QuarantinedEstablished) ==> state.draining() == state,
        !(state is Draining || state is QuarantinedDraining) ==> state.rolled_back() == state,
        state.draining().is_quarantined() == state.is_quarantined(),
        state.rolled_back().is_quarantined() == state.is_quarantined(),
{
}

/// Every bundle counts under exactly what it is.
pub proof fn bundles_count_as_what_they_are(mark: BundleMark)
    ensures
        counts_in(Some(mark), BundleCount::Establishing) <==> mark.state
            == ReservationState::Establishing,
        counts_in(Some(mark), BundleCount::Established) <==> mark.state
            == ReservationState::Established,
        counts_in(Some(mark), BundleCount::Draining) <==> mark.state == ReservationState::Draining
            || mark.state == ReservationState::QuarantinedDraining,
        counts_in(Some(mark), BundleCount::Quarantined) <==> mark.state
            == ReservationState::QuarantinedEstablishing || mark.state
            == ReservationState::QuarantinedEstablished || mark.state
            == ReservationState::QuarantinedDraining,
        counts_in(Some(mark), BundleCount::LiveQueuePair) <==> mark.qp_counted,
        forall|count: BundleCount| !#[trigger] counts_in(None, count),
{
}

/// A reservation becomes an established one with a counted queue pair when it is
/// registered, loses the count in quarantine, and regains it in recovery only if the
/// queue pair lives.
pub proof fn a_reservation_counts_its_queue_pair(
    reservation: ConnectionReservation,
    qp_is_live: bool,
)
    ensures
        reservation.state is Establishing ==> {
            &&& reservation.registered().state is Established
            &&& reservation.registered().qp_counted
        },
        !(reservation.state is Establishing) ==> reservation.registered() == reservation,
        reservation.registered().permit == reservation.permit,
        !reservation.quarantined().qp_counted,
        reservation.quarantined().state.is_quarantined(),
        reservation.quarantined().permit == reservation.permit,
        reservation.state is Established || reservation.state is Draining ==> {
            &&& reservation.quarantined().recovered(qp_is_live).state == reservation.state
            &&& reservation.quarantined().recovered(qp_is_live).qp_counted == qp_is_live
        },
        reservation.recovered(qp_is_live).permit == reservation.permit,
        reservation.marked().state == reservation.state,
        reservation.marked().qp_counted == reservation.qp_counted,
{
}

/// The counters say how many entries hold a bundle of each sort: the connection's own
/// where there is one, else that of a setup that was kept, else the one that the route
/// still holds.
pub proof fn the_counters_count_the_entries(
    view: RegistryView,
    counts: ConnectionStateCountSnapshot,
    entries: Map<SlotToken, ConnectionEntry>,
    count: BundleCount,
)
    requires
        ConnectionRegistry::counted(view, counts),
        entries == view.slots.entries,
    ensures
        match count {
            BundleCount::Establishing => counts.establishing,
            BundleCount::Established => counts.established,
            BundleCount::Draining => counts.draining,
            BundleCount::LiveQueuePair => counts.registered_live_qps,
            BundleCount::Quarantined => counts.quarantined_bundles,
        } == bundles_in(entries, count).len(),
        forall|token: SlotToken|
            #![trigger entries[token]]
            entries.contains_key(token) ==> (bundles_in(entries, count).contains(token)
                <==> counts_in(
                match entries[token].connection {
                    Some(connection) => match connection.admission {
                        Some(reservation) => Some(
                            BundleMark {
                                state: reservation.state,
                                qp_counted: reservation.qp_counted,
                            },
                        ),
                        None => None,
                    },
                    None => match entries[token].setup {
                        Some(owner) => Some(
                            BundleMark {
                                state: owner.reservation.state,
                                qp_counted: owner.reservation.qp_counted,
                            },
                        ),
                        None => match entries[token].route {
                            Route::Outbound(route) => match route.state {
                                OutboundState::AwaitAddr { reservation, .. } => Some(
                                    BundleMark {
                                        state: reservation.state,
                                        qp_counted: reservation.qp_counted,
                                    },
                                ),
                                OutboundState::AwaitRoute { reservation, .. } => Some(
                                    BundleMark {
                                        state: reservation.state,
                                        qp_counted: reservation.qp_counted,
                                    },
                                ),
                                _ => None,
                            },
                            Route::Inbound(route) => match route.state {
                                InboundState::PendingSelection { reservation, .. } => Some(
                                    BundleMark {
                                        state: reservation.state,
                                        qp_counted: reservation.qp_counted,
                                    },
                                ),
                                _ => None,
                            },
                            Route::Unrouted => None,
                        },
                    },
                },
                count,
            )),
{
    assert(counts.of(count) == bundles_in(entries, count).len());
}

/// A close begins on a connection that is active or still registered, once. It stops
/// the I/O, and the bundle drains.
pub proof fn a_close_drains(entry: ConnectionEntry)
    requires
        entry.connection is Some,
    ensures
        ConnectionRegistry::closable(entry) <==> entry.quarantine is None && (entry.lifecycle
            is Active || entry.lifecycle is Outbound || entry.lifecycle is Inbound),
        !ConnectionRegistry::closable(ConnectionRegistry::closed(entry)),
        ConnectionRegistry::closed(entry).lifecycle == Lifecycle::Draining,
        ConnectionRegistry::closed(entry).connection is Some,
        ConnectionRegistry::closed(entry).connection->0.io_closed,
        ConnectionRegistry::closed(entry).route == entry.route,
        ConnectionRegistry::closed(entry).quarantine == entry.quarantine,
        entry.connection->0.admission matches Some(reservation) ==> {
            let after = ConnectionRegistry::closed(entry).connection->0.admission;
            &&& after is Some
            &&& reservation.state is Established ==> after->0.state is Draining
            &&& after->0.qp_counted == reservation.qp_counted
        },
        ConnectionRegistry::closed(entry).close_started(),
        entry.close_started() <==> entry.lifecycle is Draining || entry.lifecycle is Retiring,
{
}

/// A close that could not fail the queue pair is given back: the bundle is whole,
/// established as before and quarantined.
pub proof fn a_failed_close_quarantines(entry: ConnectionEntry)
    requires
        entry.connection is Some,
    ensures
        ConnectionRegistry::close_failed(entry).quarantine == Some(true),
        ConnectionRegistry::close_failed(entry).connection is Some,
        ConnectionRegistry::close_failed(entry).lifecycle == entry.lifecycle,
        ConnectionRegistry::close_failed(entry).route == entry.route,
        entry.connection->0.admission matches Some(reservation) ==> {
            let after = ConnectionRegistry::close_failed(entry).connection->0.admission;
            &&& after is Some
            &&& reservation.state is Draining ==> after->0.state is QuarantinedEstablished
            &&& !after->0.qp_counted
        },
{
}

/// A drained connection asks for its retirement once its queue pair has failed, in its
/// turn; while operations are out nothing is asked.
pub proof fn a_drained_connection_retires(view: RegistryView, token: ConnectionToken)
    ensures
        ConnectionRegistry::accepted_of(view, token) != 0 ==> close_settled(view, token) == view
            && drain_settled(view, token) == view,
        view.connected(token) && view.connection(token).io_ledger.accepted@.len() == 0 ==> {
            let after = close_settled(view, token);
            &&& after.connected(token)
            &&& after.connection(token).drained_recorded
            &&& if view.entry(token).quarantine is None && view.entry(token).lifecycle is Draining
                && view.connection(token).error_transition_complete {
                &&& after.retirements =~= view.retirements + seq![token]
                &&& after.entry(token).lifecycle == (Lifecycle::Retiring { started: false })
            } else {
                &&& after.retirements == view.retirements
                &&& after.entry(token).lifecycle == view.entry(token).lifecycle
            }
            &&& after.slots.entries.remove(token) =~= view.slots.entries.remove(token)
            &&& after.qp_index == view.qp_index
            &&& after.deadlines == view.deadlines
        },
        view.connected(token) && view.connection(token).io_ledger.accepted@.len() == 0 && (
        view.entry(token).lifecycle is Draining || view.entry(token).lifecycle is Retiring) ==> {
            let after = drain_settled(view, token);
            &&& after.connected(token)
            &&& after.connection(token).drained_recorded
            &&& view.entry(token).quarantine == Some(true) && view.connection(
                token,
            ).io_ledger.quarantined@.len() == 0 ==> after.entry(token).quarantine is None
            &&& view.entry(token).quarantine == Some(true) && view.connection(
                token,
            ).io_ledger.quarantined@.len() != 0 ==> after.entry(token).quarantine == Some(false)
            &&& view.entry(token).quarantine != Some(true) ==> after.entry(token).quarantine
                == view.entry(token).quarantine
            &&& after.entry(token).quarantine is None && view.entry(token).lifecycle is Draining
                && view.connection(token).error_transition_complete ==> {
                &&& after.retirements =~= view.retirements + seq![token]
                &&& after.entry(token).lifecycle == (Lifecycle::Retiring { started: false })
            }
            &&& !(after.entry(token).quarantine is None && view.entry(token).lifecycle is Draining
                && view.connection(token).error_transition_complete) ==> {
                &&& after.retirements == view.retirements
                &&& after.entry(token).lifecycle == view.entry(token).lifecycle
            }
        },
        view.has(token) && !(view.entry(token).lifecycle is Draining || view.entry(
            token,
        ).lifecycle is Retiring) ==> drain_settled(view, token) == view,
        !view.connected(token) ==> drained(view, token) == view,
{
}

/// A queue pair that would not fail leaves the connection closed with that error, and
/// a draining bundle quarantined as established.
pub proof fn a_failed_transition_ends_the_connection(
    view: RegistryView,
    token: ConnectionToken,
    reply: Result<(), Error>,
    error: Error,
)
    requires
        view.connected(token),
    ensures
        ({
            let after = transition_failed(view, token, reply, error);
            &&& after.connected(token)
            &&& after.connection(token).io_closed
            &&& after.connection(token).error_transition_started
            &&& view.connection(token).close_result is None ==> after.connection(token).close_result
                == Some(MemoizedTerminalResult::Failed(error))
            &&& view.connection(token).close_result is Some ==> after.connection(token).close_result
                == view.connection(token).close_result
            &&& view.entry(token).quarantine is None && view.entry(token).lifecycle is Draining
                ==> after.entry(token).quarantine == Some(true)
            &&& !(view.entry(token).quarantine is None && view.entry(token).lifecycle is Draining)
                ==> after.entry(token).quarantine == view.entry(token).quarantine
            &&& after.entry(token).lifecycle == view.entry(token).lifecycle
            &&& others_kept(view, after, token)
        }),
{
}

/// What a drain may publish, and how much it may look at, fits in the room that is
/// left: two publications stay in reserve, and no more than thirty-two operations are
/// looked at. Each operation that is rejected takes up to three.
pub proof fn a_drain_fits_its_room(room: nat)
    requires
        room <= usize::MAX,
    ensures
        room <= 2 ==> scan_budget(room) == 0 && reclaim_room(room) == 0,
        room > 2 ==> scan_budget(room) >= 1,
        room > 2 ==> scan_budget(room) + 2 <= room,
        scan_budget(room) <= 32,
        2 < room < 34 ==> scan_budget(room) + 2 == room,
        room >= 34 ==> scan_budget(room) == 32,
        room > 2 ==> reclaim_room(room) + 2 == room,
        3 * reject_quantum(room) <= reclaim_room(room),
        reclaim_room(room) < 3 * reject_quantum(room) + 3,
{
}

/// Those who watch a connection learn of its close before its operations are
/// reclaimed, unless the engine shuts down or all of them know.
pub proof fn watchers_come_first(view: RegistryView, token: ConnectionToken, shutting_down: bool)
    requires
        view.connected(token),
    ensures
        shutting_down ==> !observers_come_first(view, token, shutting_down),
        view.connection(token).close_scan_complete ==> !observers_come_first(
            view,
            token,
            shutting_down,
        ),
        !shutting_down && !view.connection(token).close_scan_complete && (view.entry(
            token,
        ).lifecycle is Draining || view.entry(token).lifecycle is Retiring)
            ==> observers_come_first(view, token, shutting_down),
        view.entry(token).lifecycle is Active ==> !observers_come_first(
            view,
            token,
            shutting_down,
        ),
{
}

/// The scans of a connection go on where they stopped and note when they are through;
/// they note nothing else. The evidence of a destroyed queue pair is taken once. The
/// operations come in the order in which they were accepted.
pub proof fn scans_note_their_place(
    view: RegistryView,
    token: ConnectionToken,
    next: usize,
    complete: bool,
    limit: usize,
)
    requires
        view.connected(token),
    ensures
        ({
            let after = observers_scanned(view, token, next, complete);
            &&& after.connection(token).close_scan_slot == next
            &&& after.connection(token).close_scan_complete == complete
            &&& after.connection(token).quarantine_scan_slot == view.connection(
                token,
            ).quarantine_scan_slot
            &&& after.connection(token).io_ledger == view.connection(token).io_ledger
            &&& after.entry(token).lifecycle == view.entry(token).lifecycle
            &&& after.entry(token).route == view.entry(token).route
            &&& after.entry(token).quarantine == view.entry(token).quarantine
            &&& others_kept(view, after, token)
        }),
        ({
            let after = quarantine_scanned(view, token, next, complete);
            &&& after.connection(token).quarantine_scan_slot == next
            &&& after.connection(token).quarantine_scan_complete == complete
            &&& after.connection(token).close_scan_slot == view.connection(token).close_scan_slot
            &&& after.connection(token).io_ledger == view.connection(token).io_ledger
            &&& after.entry(token).lifecycle == view.entry(token).lifecycle
            &&& after.entry(token).quarantine == view.entry(token).quarantine
            &&& others_kept(view, after, token)
        }),
        ({
            let after = evidence_taken(view, token);
            &&& after.connection(token).qp_reclamation_proof is None
            &&& after.connection(token).qp_destroyed == view.connection(token).qp_destroyed
            &&& others_kept(view, after, token)
        }),
        accepted_prefix(view, token, limit).len() <= limit,
        accepted_prefix(view, token, limit).len() == limit || accepted_prefix(view, token, limit)
            =~= view.connection(token).io_ledger.accepted@,
        forall|i: int|
            #![trigger accepted_prefix(view, token, limit)[i]]
            0 <= i < accepted_prefix(view, token, limit).len() ==> accepted_prefix(
                view,
                token,
                limit,
            )[i] == view.connection(token).io_ledger.accepted@[i],
{
}

/// A drain whose time is up quarantines the bundle, and the close tells how much is
/// outstanding, unless it was told before why the connection ended.
pub proof fn an_overdue_drain_quarantines(
    view: RegistryView,
    token: ConnectionToken,
    report: IoQuarantineReport,
)
    requires
        view.connected(token),
    ensures
        ({
            let after = drain_quarantined(view, token, report);
            &&& after.connected(token)
            &&& !(view.entry(token).lifecycle is Retired) ==> after.entry(token).quarantine == Some(
                true,
            )
            &&& view.connection(token).close_result is None ==> {
                &&& after.connection(token).close_result is Some
                &&& after.connection(token).close_result->0 matches MemoizedTerminalResult::Failed(
                    Error::ConnectionQuarantined { outstanding_operations, cq_debt },
                ) && outstanding_operations == report.outstanding_operations && cq_debt
                    == report.cq_debt
                &&& after.connection(token).close.visible() == after.connection(token).close_result
            }
            &&& view.connection(token).close_result is Some ==> after.connection(token).close_result
                == view.connection(token).close_result
            &&& after.entry(token).lifecycle == view.entry(token).lifecycle
            &&& others_kept(view, after, token)
        }),
{
}

/// The bundle of an entry is quarantined wherever it is held, once; a retired one is
/// not. No other part of the entry changes.
pub proof fn a_bundle_is_quarantined_where_it_is(entry: ConnectionEntry)
    ensures
        entry.quarantine == Some(true) ==> entry.bundle_quarantined() == entry,
        entry.quarantine is None && entry.lifecycle is Retired ==> entry.bundle_quarantined()
            == entry,
        entry.quarantine == Some(false) || (entry.quarantine is None && !(entry.lifecycle
            is Retired)) ==> {
            let after = entry.bundle_quarantined();
            &&& after.quarantine == Some(true)
            &&& after.lifecycle == entry.lifecycle
            &&& entry.connection matches Some(connection) ==> {
                &&& after.connection is Some
                &&& after.connection->0.io_ledger == connection.io_ledger
                &&& after.connection->0.close_result == connection.close_result
                &&& connection.admission matches Some(reservation) ==> {
                    &&& after.connection->0.admission is Some
                    &&& after.connection->0.admission->0.state.is_quarantined()
                    &&& !after.connection->0.admission->0.qp_counted
                }
                &&& after.route == entry.route
                &&& after.setup == entry.setup
            }
            &&& entry.connection is None && entry.setup is Some ==> {
                &&& after.setup is Some
                &&& after.setup->0.reservation.state.is_quarantined()
                &&& after.setup->0.poster == entry.setup->0.poster
                &&& after.route == entry.route
            }
            &&& entry.connection is None && entry.setup is None ==> match entry.route {
                Route::Outbound(route) => match route.state {
                    OutboundState::AwaitAddr { cm_id, request, reservation } => {
                        &&& after.route is Outbound
                        &&& after.route->Outbound_0.state matches OutboundState::AwaitAddr {
                            cm_id: kept_id,
                            request: kept,
                            reservation: held,
                        } && kept_id == cm_id && kept == request && held.state.is_quarantined()
                            && !held.qp_counted
                    },
                    OutboundState::AwaitRoute { cm_id, request, reservation } => {
                        &&& after.route is Outbound
                        &&& after.route->Outbound_0.state matches OutboundState::AwaitRoute {
                            cm_id: kept_id,
                            request: kept,
                            reservation: held,
                        } && kept_id == cm_id && kept == request && held.state.is_quarantined()
                            && !held.qp_counted
                    },
                    _ => after.route == entry.route,
                },
                Route::Inbound(route) => match route.state {
                    InboundState::PendingSelection { cm_id, reservation } => {
                        &&& after.route is Inbound
                        &&& after.route->Inbound_0.state matches InboundState::PendingSelection {
                            cm_id: kept_id,
                            reservation: held,
                        } && kept_id == cm_id && held.state.is_quarantined() && !held.qp_counted
                    },
                    _ => after.route == entry.route,
                },
                Route::Unrouted => after.route is Unrouted,
            }
        },
{
}

/// A quarantine of the bundle is lifted as far as its operations let it; that of a
/// setup that was kept is not.
pub proof fn a_quarantine_is_lifted_as_far_as_operations_let_it(entry: ConnectionEntry)
    ensures
        entry.connection matches Some(connection) ==> {
            let after = ConnectionRegistry::bundle_cleared(entry);
            &&& connection.io_ledger.quarantined@.len() == 0 ==> after.quarantine is None
            &&& connection.io_ledger.quarantined@.len() != 0 ==> after.quarantine == Some(false)
            &&& after.connection is Some
            &&& after.connection->0.io_ledger == connection.io_ledger
            &&& after.lifecycle == entry.lifecycle
            &&& after.route == entry.route
            &&& connection.admission matches Some(reservation) ==> {
                &&& after.connection->0.admission is Some
                &&& reservation.state is QuarantinedEstablished ==> after.connection->0.admission->0.state
                    is Established && after.connection->0.admission->0.qp_counted
                    == !connection.qp_destroyed
                &&& reservation.state is QuarantinedDraining ==> after.connection->0.admission->0.state
                    is Draining && after.connection->0.admission->0.qp_counted
                    == !connection.qp_destroyed
            }
        },
        entry.connection is None && entry.setup is Some ==> ConnectionRegistry::bundle_cleared(
            entry,
        ) == entry,
        entry.connection is None && entry.setup is None ==> ConnectionRegistry::bundle_cleared(
            entry,
        ).quarantine is None,
{
}

/// An operation that is quarantined is on the connection's list once, and the entry is
/// quarantined at least for it; the accepted operations stay.
pub proof fn a_quarantined_operation_is_listed_once(
    entry: ConnectionEntry,
    after: ConnectionEntry,
    operation: OperationToken,
)
    requires
        ConnectionRegistry::operation_quarantined(entry, after, operation),
    ensures
        after.quarantine is Some,
        entry.quarantine is Some ==> after.quarantine == entry.quarantine,
        entry.quarantine is None ==> after.quarantine == Some(false),
        after.lifecycle == entry.lifecycle,
        after.route == entry.route,
        after.setup == entry.setup,
        (entry.connection is None) == (after.connection is None),
        entry.connection matches Some(connection) ==> {
            let held = after.connection->0.io_ledger;
            &&& held.quarantined@.contains(operation)
            &&& connection.io_ledger.quarantined@.contains(operation) ==> held.quarantined@
                == connection.io_ledger.quarantined@
            &&& !connection.io_ledger.quarantined@.contains(operation) ==> held.quarantined@.len()
                == connection.io_ledger.quarantined@.len() + 1
            &&& held.accepted == connection.io_ledger.accepted
            &&& after.connection->0.admission == connection.admission
            &&& after.connection->0.close_result == connection.close_result
        },
{
    if entry.connection is Some {
        let held = after.connection->0.io_ledger.quarantined@;
        if !entry.connection->0.io_ledger.quarantined@.contains(operation) {
            assert(held[held.len() - 1] == operation);
        }
    }
}

/// A destruction that failed quarantines the whole bundle, keeps the connection with
/// its route, wakes its waiters, and tells its I/O side once.
pub proof fn a_failed_destruction_quarantines(
    before: RegistryView,
    after: RegistryView,
    token: ConnectionToken,
    error: Error,
    actions: Seq<Action>,
)
    requires
        ConnectionRegistry::quarantine_published(before, after, token, error),
        before.connected(token),
    ensures
        after.connected(token),
        !(before.entry(token).quarantine is None && before.entry(token).lifecycle is Retired)
            ==> after.entry(token).quarantine == Some(true),
        after.entry(token).lifecycle == before.entry(token).lifecycle,
        after.entry(token).route == before.entry(token).route,
        after.connection(token).close_result is Some,
        tells_of_quarantine(after.connection(token).close_result->0),
        others_kept(before, after, token),
        ({
            let told = ConnectionRegistry::quarantine_actions(before, after, token, actions);
            let first = !(before.connection(token).close_result is Some && tells_of_quarantine(
                before.connection(token).close_result->0,
            ));
            &&& first ==> told =~= actions + seq![
                Action::WakeClose { connection: before.connection(token).token },
                Action::IoEvent {
                    connection: token,
                    event: IoTerminalEvent::Terminal(
                        after.connection(token).close_result->0->Failed_0,
                    ),
                },
            ]
            &&& !first ==> told =~= actions + seq![
                Action::WakeClose { connection: before.connection(token).token },
            ]
        }),
{
}

/// What is kept in the tables for a token shows under it: its queue pair's number, its
/// route's identity and the number of its accepted operations; live I/O is that of the
/// connection that the index leads to.
pub proof fn the_registry_shows_what_it_holds(view: RegistryView, token: ConnectionToken, qp_num: u32)
    requires
        view.slots.tabled(),
    ensures
        view.connected(token) ==> {
            &&& ConnectionRegistry::snapshot_of(view, token) is Occupied
            &&& ConnectionRegistry::snapshot_of(view, token)->0.qp_num == view.connection(
                token,
            ).qp_num
            &&& ConnectionRegistry::accepted_of(view, token) == view.connection(
                token,
            ).io_ledger.accepted@.len()
        },
        !view.connected(token) ==> ConnectionRegistry::accepted_of(view, token) == 0,
        view.has(token) && view.entry(token).connection is None ==> ConnectionRegistry::snapshot_of(
            view,
            token,
        ) is Unknown,
        ConnectionRegistry::live_io(view, token, qp_num) <==> view.connected(token)
            && view.connection(token).qp_num == qp_num && view.qp_index.contains_key(qp_num)
            && view.qp_index[qp_num] == token,
        ConnectionRegistry::qp_refusal(view, qp_num) is None <==> qp_num != 0
            && !view.qp_index.contains_key(qp_num),
        ConnectionRegistry::attach_refusal(view, token, qp_num) is None <==> qp_num != 0
            && !view.qp_index.contains_key(qp_num) && view.has(token) && view.entry(
            token,
        ).quarantine is None && view.entry(token).connection is None,
        ConnectionRegistry::bundle_open(view, token) <==> view.has(token) && view.entry(
            token,
        ).quarantine != Some(true) && !(view.entry(token).quarantine is None && view.entry(
            token,
        ).lifecycle is Retired),
        view.has(token) ==> (ConnectionRegistry::retirable(view.entry(token)) <==> view.entry(
            token,
        ).quarantine is None && view.entry(token).lifecycle is Draining && view.entry(
            token,
        ).connection->0.error_transition_complete),
{
}

} // verus!
