//! Deadlines in the order in which they fall due.

use vstd::prelude::*;

use crate::error::Error;
use crate::registry::DeadlineKind;

verus! {

/// What falls due.
#[derive(Clone, Copy, Debug, PartialEq, Eq, Structural)]
pub struct SessionDeadline {
    pub kind: DeadlineKind,
    pub token: u64,
}

/// A deadline with the instant at which it falls due.
#[derive(Clone, Copy, Debug, PartialEq, Eq, Structural)]
pub struct QueuedDeadline {
    pub at: u64,
    pub deadline: SessionDeadline,
}

/// How many deadlines at the front of a queue fall due no later than `at`.
pub open spec fn due_by(queue: Seq<QueuedDeadline>, at: u64) -> nat
    decreases queue.len(),
{
    if queue.len() == 0 || queue[0].at > at {
        0
    } else {
        1 + due_by(queue.drop_first(), at)
    }
}

/// Whether no deadline of a queue falls due before one in front of it.
pub open spec fn in_order(queue: Seq<QueuedDeadline>) -> bool {
    forall|i: int, j: int| 0 <= i <= j < queue.len() ==> #[trigger] queue[i].at <= #[trigger] queue[j].at
}

/// The queue with one more deadline, behind all that fall due no later.
pub open spec fn queued(queue: Seq<QueuedDeadline>, added: QueuedDeadline) -> Seq<QueuedDeadline> {
    queue.insert(due_by(queue, added.at) as int, added)
}

/// Deadlines in the order in which they fall due; equal ones in the order in which
/// they came.
pub struct DeadlineQueue {
    queue: Vec<QueuedDeadline>,
    sequence: u64,
}

proof fn due_by_is_a_prefix(queue: Seq<QueuedDeadline>, at: u64)
    ensures
        due_by(queue, at) <= queue.len(),
        forall|i: int| 0 <= i < due_by(queue, at) ==> (#[trigger] queue[i]).at <= at,
        due_by(queue, at) < queue.len() ==> queue[due_by(queue, at) as int].at > at,
    decreases queue.len(),
{
    if queue.len() > 0 && queue[0].at <= at {
        let rest = queue.drop_first();
        due_by_is_a_prefix(rest, at);
        assert forall|i: int| 0 <= i < due_by(queue, at) implies (#[trigger] queue[i]).at <= at by {
            if i > 0 {
                assert(queue[i] == rest[i - 1]);
            }
        }
        if due_by(queue, at) < queue.len() {
            assert(queue[due_by(queue, at) as int] == rest[due_by(rest, at) as int]);
        }
    }
}

proof fn prefix_is_due_by(queue: Seq<QueuedDeadline>, at: u64, count: int)
    requires
        0 <= count <= queue.len(),
        forall|i: int| 0 <= i < count ==> (#[trigger] queue[i]).at <= at,
        count < queue.len() ==> queue[count].at > at,
    ensures
        due_by(queue, at) == count,
    decreases queue.len(),
{
    if count > 0 {
        let rest = queue.drop_first();
        assert(queue[0].at <= at);
        assert forall|i: int| 0 <= i < count - 1 implies (#[trigger] rest[i]).at <= at by {
            assert(rest[i] == queue[i + 1]);
        }
        prefix_is_due_by(rest, at, count - 1);
    }
}

/// No deadline overtakes one that falls due earlier.
pub proof fn added_deadlines_stay_in_order(queue: Seq<QueuedDeadline>, added: QueuedDeadline)
    requires
        in_order(queue),
    ensures
        in_order(queued(queue, added)),
{
    due_by_is_a_prefix(queue, added.at);
    let at = due_by(queue, added.at) as int;
    let after = queued(queue, added);
    assert forall|i: int, j: int| 0 <= i <= j < after.len() implies #[trigger] after[i].at
        <= #[trigger] after[j].at by {
        let from = |k: int|
            if k < at {
                k
            } else {
                k - 1
            };
        if i < at && j == at {
            assert(after[i] == queue[i]);
        } else if i == at && j > at {
            assert(after[j] == queue[j - 1]);
            assert(queue[at].at <= queue[j - 1].at);
        } else if i != at && j != at {
            assert(after[i] == queue[from(i)]);
            assert(after[j] == queue[from(j)]);
        }
    }
}

impl DeadlineQueue {
    pub closed spec fn view(&self) -> Seq<QueuedDeadline> {
        self.queue@
    }

    /// How many deadlines this queue can still number.
    pub closed spec fn numbers_left(&self) -> nat {
        (u64::MAX - self.sequence) as nat
    }

    pub closed spec fn wf(&self) -> bool {
        in_order(self.queue@)
    }

    pub fn new() -> (queue: Self)
        ensures
            queue.wf(),
            queue@ == Seq::<QueuedDeadline>::empty(),
            queue.numbers_left() == u64::MAX,
    {
        DeadlineQueue { queue: Vec::new(), sequence: 0 }
    }

    /// A queue that has given out all but `left` of its numbers.
    pub fn with_numbers_left(left: u64) -> (queue: Self)
        ensures
            queue.wf(),
            queue@ == Seq::<QueuedDeadline>::empty(),
            queue.numbers_left() == left,
    {
        DeadlineQueue { queue: Vec::new(), sequence: u64::MAX - left }
    }

    /// Adds a deadline. Every deadline gets a number; without one it is refused.
    pub fn push(&mut self, at: u64, deadline: SessionDeadline) -> (result: Result<(), Error>)
        requires
            old(self).wf(),
        ensures
            final(self).wf(),
            if old(self).numbers_left() == 0 {
                &&& result matches Err(error) && error.is_invalid_config(
                    "session deadline insertion sequence exhausted"@,
                )
                &&& final(self)@ == old(self)@
                &&& final(self).numbers_left() == 0
            } else {
                &&& result is Ok
                &&& final(self)@ == queued(old(self)@, QueuedDeadline { at, deadline })
                &&& final(self).numbers_left() == old(self).numbers_left() - 1
            },
    {
        if self.sequence == u64::MAX {
            return Err(Error::invalid("session deadline insertion sequence exhausted"));
        }
        let mut place: usize = 0;
        while place < self.queue.len() && self.queue[place].at <= at
            invariant
                place <= self.queue.len(),
                forall|i: int| 0 <= i < place ==> (#[trigger] self.queue@[i]).at <= at,
            decreases self.queue.len() - place,
        {
            place = place + 1;
        }
        proof {
            prefix_is_due_by(self.queue@, at, place as int);
            added_deadlines_stay_in_order(self.queue@, QueuedDeadline { at, deadline });
        }
        self.queue.insert(place, QueuedDeadline { at, deadline });
        self.sequence = self.sequence + 1;
        Ok(())
    }

    /// When the next deadline falls due.
    pub fn next(&self) -> (at: Option<u64>)
        ensures
            at == if self@.len() > 0 {
                Some(self@[0].at)
            } else {
                None
            },
    {
        if self.queue.len() > 0 {
            Some(self.queue[0].at)
        } else {
            None
        }
    }

    pub fn has_due(&self, now: u64) -> (due: bool)
        ensures
            due == (self@.len() > 0 && self@[0].at <= now),
    {
        self.queue.len() > 0 && self.queue[0].at <= now
    }

    /// Takes out the deadlines that are due, in order, no more than `limit`.
    pub fn drain_due(&mut self, now: u64, limit: usize) -> (due: Vec<SessionDeadline>)
        requires
            old(self).wf(),
        ensures
            final(self).wf(),
            final(self).numbers_left() == old(self).numbers_left(),
            due_by(old(self)@, now) <= old(self)@.len(),
            ({
                let count = if due_by(old(self)@, now) <= limit {
                    due_by(old(self)@, now)
                } else {
                    limit as nat
                };
                &&& due@.len() == count
                &&& forall|i: int| 0 <= i < count ==> due@[i] == (#[trigger] old(self)@[i]).deadline
                &&& final(self)@ == old(self)@.skip(count as int)
            }),
    {
        let mut due: Vec<SessionDeadline> = Vec::new();
        proof {
            due_by_is_a_prefix(self.queue@, now);
            assert(self.queue@ =~= old(self)@.skip(0));
        }
        while due.len() < limit && self.has_due(now)
            invariant
                self.wf(),
                self.numbers_left() == old(self).numbers_left(),
                old(self).wf(),
                due@.len() <= limit,
                due@.len() <= due_by(old(self)@, now) <= old(self)@.len(),
                forall|i: int| 0 <= i < due_by(old(self)@, now) ==> (#[trigger] old(self)@[i]).at
                    <= now,
                due_by(old(self)@, now) < old(self)@.len() ==> old(self)@[due_by(
                    old(self)@,
                    now,
                ) as int].at > now,
                self@ == old(self)@.skip(due@.len() as int),
                forall|i: int| 0 <= i < due@.len() ==> due@[i] == (#[trigger] old(
                    self,
                )@[i]).deadline,
            decreases limit - due.len(),
        {
            let ghost taken = due@.len() as int;
            assert(self@[0] == old(self)@[taken]);
            let first = self.queue.remove(0);
            due.push(first.deadline);
            assert(self.queue@ =~= old(self)@.skip(taken + 1));
        }
        due
    }
}

/// Deadlines that fall due at one instant come in the order in which they were added.
pub proof fn equal_deadlines_keep_their_order(
    queue: Seq<QueuedDeadline>,
    first: QueuedDeadline,
    second: QueuedDeadline,
)
    requires
        in_order(queue),
        first.at == second.at,
    ensures
        exists|i: int|
            0 <= i && i + 1 < queued(queued(queue, first), second).len() && queued(
                queued(queue, first),
                second,
            )[i] == first && #[trigger] queued(queued(queue, first), second)[i + 1] == second,
{
    due_by_is_a_prefix(queue, first.at);
    let place = due_by(queue, first.at) as int;
    let once = queued(queue, first);
    assert forall|i: int| 0 <= i < place + 1 implies (#[trigger] once[i]).at <= second.at by {
        if i < place {
            assert(once[i] == queue[i]);
        }
    }
    if place + 1 < once.len() {
        assert(once[place + 1] == queue[place]);
    }
    prefix_is_due_by(once, second.at, place + 1);
    let twice = queued(once, second);
    assert(twice[place] == first);
    assert(twice[place + 1] == second);
}

} // verus!
