//! When deadlines fall due.

use vstd::prelude::*;

use crate::deadlines::{due_by, in_order, queued, QueuedDeadline};
use crate::drain::{drain_scheduled, evidence_kept};
use crate::connection::QpDestructionProof;
use crate::progress::SourcesView;
use crate::registry::{deadline_at, DeadlineKind, RegistryView};
use crate::token::ConnectionToken;

verus! {

/// A delay counts from the present instant: wherever the sum fits, the deadline falls
/// due after exactly that delay, so that a later instant gives a later deadline and a
/// longer delay too. Where the sum does not fit, the deadline is due at once.
pub proof fn a_deadline_falls_due_after_its_delay(now: u64, after: u64)
    ensures
        now + after <= u64::MAX ==> deadline_at(now, after) - now == after,
        now + after > u64::MAX ==> deadline_at(now, after) == now,
        deadline_at(now, after) >= now,
        deadline_at(now, 0) == now,
        forall|later: u64|
            #![trigger deadline_at(later, after)]
            now < later && later + after <= u64::MAX ==> deadline_at(later, after) - deadline_at(
                now,
                after,
            ) == later - now,
        forall|longer: u64|
            #![trigger deadline_at(now, longer)]
            after < longer && now + longer <= u64::MAX ==> deadline_at(now, longer) - deadline_at(
                now,
                after,
            ) == longer - after,
{
}

/// The drain of a connection is asked for with one deadline more: it names that
/// connection, comes last, and falls due exactly `after` from now where the sum fits.
/// Nothing else changes. What keeps evidence of a destroyed queue pair comes back at
/// once.
pub proof fn a_drain_falls_due_after_its_delay(
    view: RegistryView,
    token: ConnectionToken,
    after: u64,
    now: u64,
    evidence: QpDestructionProof,
)
    ensures
        drain_scheduled(view, token, after, now).deadlines.len() == view.deadlines.len() + 1,
        drain_scheduled(view, token, after, now).deadlines.drop_last() =~= view.deadlines,
        drain_scheduled(view, token, after, now).deadlines.last().token == token.encoded(),
        drain_scheduled(view, token, after, now).deadlines.last().kind
            == DeadlineKind::ConnectionDrain,
        now + after <= u64::MAX ==> drain_scheduled(view, token, after, now).deadlines.last().at
            - now == after,
        now + after > u64::MAX ==> drain_scheduled(view, token, after, now).deadlines.last().at
            == now,
        drain_scheduled(view, token, after, now) == (RegistryView {
            deadlines: drain_scheduled(view, token, after, now).deadlines,
            ..view
        }),
        ({
            let kept = evidence_kept(view, token, evidence, now);
            &&& kept.deadlines.last().at == now
            &&& kept.deadlines.last().token == token.encoded()
            &&& kept.deadlines.drop_last() =~= view.deadlines
            &&& kept.connection(token).qp_reclamation_proof == Some(evidence)
            &&& kept.slots.entries.remove(token) =~= view.slots.entries.remove(token)
        }),
{
}

/// A shutdown begins once, and then sets no further connect up and asks for one
/// deadline of its own, which falls due exactly the configured time from now where
/// the sum fits.
pub proof fn a_shutdown_falls_due_after_its_time(sources: SourcesView, now: u64)
    ensures
        sources.shutdown_begun(now).shutdown_started,
        sources.shutdown_begun(now).shutdown_begun(now) == sources.shutdown_begun(now),
        sources.shutdown_started ==> sources.shutdown_begun(now) == sources,
        !sources.shutdown_started ==> {
            let begun = sources.shutdown_begun(now).tables;
            let asked = begun.connections.deadlines;
            &&& begun.cm.shutting_down
            &&& asked.len() == sources.tables.connections.deadlines.len() + 1
            &&& asked.drop_last() =~= sources.tables.connections.deadlines
            &&& asked.last().kind == DeadlineKind::EngineShutdown
            &&& asked.last().token == 0
            &&& now + sources.shutdown_deadline <= u64::MAX ==> asked.last().at - now
                == sources.shutdown_deadline
            &&& now + sources.shutdown_deadline > u64::MAX ==> asked.last().at == now
            &&& begun.connections.slots == sources.tables.connections.slots
            &&& begun.connections.cancellations == sources.tables.connections.cancellations
            &&& begun.connections.pending_outbound == sources.tables.connections.pending_outbound
            &&& begun.connects == sources.tables.connects
            &&& begun.listens == sources.tables.listens
            &&& begun.accepts == sources.tables.accepts
        },
{
}

/// Of a queue in order, exactly those deadlines are due whose time has come.
pub proof fn what_has_come_is_due(queue: Seq<QueuedDeadline>, at: u64)
    requires
        in_order(queue),
    ensures
        0 <= due_by(queue, at) <= queue.len(),
        forall|i: int|
            #![trigger queue[i]]
            0 <= i < queue.len() ==> (queue[i].at <= at <==> i < due_by(queue, at)),
    decreases queue.len(),
{
    if queue.len() > 0 && queue[0].at <= at {
        let rest = queue.drop_first();
        assert(in_order(rest)) by {
            assert forall|i: int, j: int| 0 <= i <= j < rest.len() implies #[trigger] rest[i].at
                <= #[trigger] rest[j].at by {
                assert(queue[i + 1].at <= queue[j + 1].at);
            }
        }
        what_has_come_is_due(rest, at);
        assert forall|i: int|
            #![trigger queue[i]]
            0 <= i < queue.len() implies (queue[i].at <= at <==> i < due_by(queue, at)) by {
            if i > 0 {
                assert(queue[i] == rest[i - 1]);
            }
        }
    } else if queue.len() > 0 {
        assert forall|i: int|
            #![trigger queue[i]]
            0 <= i < queue.len() implies !(queue[i].at <= at) by {
            assert(queue[0].at <= queue[i].at);
        }
    }
}

/// A deadline that is added falls behind all that are due no later than it, and ahead
/// of all that are due later: those of one instant keep the order in which they came.
/// None is lost.
pub proof fn deadlines_of_one_instant_keep_their_order(
    queue: Seq<QueuedDeadline>,
    added: QueuedDeadline,
)
    requires
        in_order(queue),
    ensures
        queued(queue, added).len() == queue.len() + 1,
        exists|place: int|
            0 <= place <= queue.len() && #[trigger] queued(queue, added)[place] == added && queued(
                queue,
                added,
            ).remove(place) == queue && (forall|i: int|
                #![trigger queue[i]]
                0 <= i < queue.len() ==> (queue[i].at <= added.at <==> i < place)),
{
    what_has_come_is_due(queue, added.at);
    let place = due_by(queue, added.at) as int;
    assert(queued(queue, added)[place] == added);
    assert(queued(queue, added).remove(place) =~= queue);
}

} // verus!
