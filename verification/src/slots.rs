//! A bounded table of generation-stamped slots.

use vstd::prelude::*;

use crate::token::SlotToken;

verus! {

/// What a token names in a slot table.
#[derive(Debug, PartialEq, Eq)]
pub enum Lookup<T> {
    /// The token names the present occupant.
    Occupied(T),
    /// The occupant that the token named was released after completing.
    Duplicate,
    /// The occupant that the token named is gone.
    Stale,
    /// The token was never issued.
    Unknown,
    /// The token names the last occupant of a slot that is out of generations.
    Retired,
}

/// What a slot holds, leaving the value aside.
#[derive(Clone, Copy, Debug, PartialEq, Eq, Structural)]
pub enum SlotKind {
    Occupied,
    /// Free, and whether the last occupant had completed.
    Vacant { completed: bool },
    /// Out of generations, and whether the last occupant had completed.
    Retired { completed: bool },
}

/// The newest generation of a slot and what became of it.
#[derive(Clone, Copy, Debug, PartialEq, Eq, Structural)]
pub struct SlotMark {
    pub generation: u32,
    pub kind: SlotKind,
}

/// The contents of a slot table.
#[verifier::ext_equal]
pub struct SlotsView<T> {
    pub entries: Map<SlotToken, T>,
    pub marks: Seq<SlotMark>,
    pub capacity: nat,
}

impl<T> SlotsView<T> {
    /// A table with room for `capacity` values that none was ever stored in.
    pub open spec fn unused(capacity: nat) -> SlotsView<T> {
        SlotsView { entries: Map::empty(), marks: Seq::empty(), capacity }
    }

    /// What `token` names.
    pub open spec fn lookup(self, token: SlotToken) -> Lookup<T> {
        if token.slot >= self.marks.len() {
            Lookup::Unknown
        } else {
            let mark = self.marks[token.slot as int];
            if token.generation > mark.generation {
                Lookup::Unknown
            } else if token.generation < mark.generation {
                Lookup::Stale
            } else {
                match mark.kind {
                    SlotKind::Occupied => Lookup::Occupied(self.entries[token]),
                    SlotKind::Vacant { completed: true } => Lookup::Duplicate,
                    SlotKind::Vacant { completed: false } => Lookup::Stale,
                    SlotKind::Retired { completed: true } => Lookup::Duplicate,
                    SlotKind::Retired { completed: false } => Lookup::Retired,
                }
            }
        }
    }

    /// Whether `token` has been handed out at some time.
    pub open spec fn issued(self, token: SlotToken) -> bool {
        &&& token.slot < self.marks.len()
        &&& 1 <= token.generation <= self.marks[token.slot as int].generation
    }

    /// The token of the newest generation of a slot.
    pub open spec fn newest(self, slot: int) -> SlotToken {
        SlotToken { slot: slot as u32, generation: self.marks[slot].generation }
    }

    /// The tokens of the occupied slots from `from` up to `upto`, in slot order.
    pub open spec fn occupied_between(self, from: int, upto: int) -> Seq<SlotToken>
        decreases upto - from,
    {
        if upto <= from {
            Seq::empty()
        } else {
            let before = self.occupied_between(from, upto - 1);
            if self.marks[upto - 1].kind == SlotKind::Occupied {
                before.push(self.newest(upto - 1))
            } else {
                before
            }
        }
    }

    /// How many slots a scan from `start` looks at.
    pub open spec fn scanned(self, start: int, budget: int) -> int {
        if start >= self.marks.len() {
            0
        } else if self.marks.len() - start <= budget {
            self.marks.len() - start
        } else {
            budget
        }
    }

    /// A range of slots holds no more occupied slots than it is long, and each of
    /// their tokens is found.
    pub proof fn occupied_are_bounded(self, from: int, upto: int)
        requires
            0 <= from,
            upto <= self.marks.len() <= u32::MAX,
        ensures
            self.occupied_between(from, upto).len() <= if upto <= from {
                0
            } else {
                upto - from
            },
            forall|i: int|
                0 <= i < self.occupied_between(from, upto).len() ==> self.lookup(
                    #[trigger] self.occupied_between(from, upto)[i],
                ) is Occupied,
        decreases upto - from,
    {
        if upto > from {
            self.occupied_are_bounded(from, upto - 1);
        }
    }

    /// Whether the entries are the present occupants of the slots.
    pub open spec fn tabled(self) -> bool {
        &&& self.entries.dom().finite()
        &&& self.marks.len() <= u32::MAX
        &&& forall|token: SlotToken| #[trigger]
            self.entries.contains_key(token) <==> {
                &&& token.slot < self.marks.len()
                &&& self.marks[token.slot as int].generation == token.generation
                &&& self.marks[token.slot as int].kind is Occupied
            }
    }

    /// The entry of `token` replaced by `value`.
    pub open spec fn set(self, token: SlotToken, value: T) -> SlotsView<T> {
        SlotsView { entries: self.entries.insert(token, value), ..self }
    }

    /// The entry of `token` taken out.
    pub open spec fn removed(self, token: SlotToken, completed: bool) -> SlotsView<T> {
        let kind = if token.generation == u32::MAX {
            SlotKind::Retired { completed }
        } else {
            SlotKind::Vacant { completed }
        };
        SlotsView {
            entries: self.entries.remove(token),
            marks: self.marks.update(
                token.slot as int,
                SlotMark { generation: token.generation, kind },
            ),
            ..self
        }
    }

    /// A fresh entry under `token`.
    pub open spec fn added(self, token: SlotToken, value: T) -> SlotsView<T> {
        let mark = SlotMark { generation: token.generation, kind: SlotKind::Occupied };
        SlotsView {
            entries: self.entries.insert(token, value),
            marks: if token.slot < self.marks.len() {
                self.marks.update(token.slot as int, mark)
            } else {
                self.marks.push(mark)
            },
            ..self
        }
    }

    /// Whether `token` is one that the table may hand out next.
    pub open spec fn may_issue(self, token: SlotToken) -> bool {
        if token.slot < self.marks.len() {
            let mark = self.marks[token.slot as int];
            &&& mark.kind is Vacant
            &&& token.generation == mark.generation + 1
        } else {
            token.slot == self.marks.len() && token.generation == 1
        }
    }
}

enum SlotState<T> {
    Occupied(T),
    Vacant { completed: bool },
    Retired { completed: bool },
}

struct Slot<T> {
    generation: u32,
    state: SlotState<T>,
}

impl<T> Slot<T> {
    spec fn mark(self) -> SlotMark {
        SlotMark {
            generation: self.generation,
            kind: match self.state {
                SlotState::Occupied(_) => SlotKind::Occupied,
                SlotState::Vacant { completed } => SlotKind::Vacant { completed },
                SlotState::Retired { completed } => SlotKind::Retired { completed },
            },
        }
    }
}

/// Owns up to `capacity` values, each under a token that is never issued twice.
pub struct SlotRegistry<T> {
    slots: Vec<Slot<T>>,
    free: Vec<u32>,
    capacity: usize,
    live: usize,
    retired: usize,
}

impl<T> SlotRegistry<T> {
    spec fn holds(slots: Seq<Slot<T>>, token: SlotToken) -> bool {
        &&& token.slot < slots.len()
        &&& slots[token.slot as int].generation == token.generation
        &&& slots[token.slot as int].state is Occupied
    }

    spec fn contents(slots: Seq<Slot<T>>) -> Map<SlotToken, T> {
        Map::new(
            |token: SlotToken| Self::holds(slots, token),
            |token: SlotToken| slots[token.slot as int].state->Occupied_0,
        )
    }

    pub closed spec fn view(&self) -> SlotsView<T> {
        SlotsView {
            entries: Self::contents(self.slots@),
            marks: Seq::new(self.slots@.len(), |i: int| self.slots@[i].mark()),
            capacity: self.capacity as nat,
        }
    }

    /// The token that is handed out next, where there is room.
    pub closed spec fn upcoming(&self) -> SlotToken {
        if self.free@.len() > 0 {
            let slot = self.free@.last();
            SlotToken { slot, generation: (self.slots@[slot as int].generation + 1) as u32 }
        } else {
            SlotToken { slot: self.slots@.len() as u32, generation: 1 }
        }
    }

    /// How many slots are out of generations.
    pub closed spec fn spent(&self) -> nat {
        self.retired as nat
    }

    pub closed spec fn wf(&self) -> bool {
        &&& self.capacity <= u32::MAX
        &&& self.slots@.len() <= self.capacity
        &&& self.free@.len() + self.live + self.retired == self.slots@.len()
        &&& self@.entries.dom().finite()
        &&& self@.entries.dom().len() == self.live
        &&& forall|i: int| 0 <= i < self.slots@.len() ==> (#[trigger] self.slots@[i]).generation >= 1
        &&& forall|i: int|
            0 <= i < self.slots@.len() && (#[trigger] self.slots@[i]).state is Vacant
                ==> self.slots@[i].generation < u32::MAX
        &&& forall|k: int|
            0 <= k < self.free@.len() ==> {
                &&& (#[trigger] self.free@[k]) < self.slots@.len()
                &&& self.slots@[self.free@[k] as int].state is Vacant
            }
        &&& forall|j: int, k: int|
            0 <= j < k < self.free@.len() ==> #[trigger] self.free@[j] != #[trigger] self.free@[k]
    }

    /// What follows of a well-formed table: its entries are those that lookup
    /// finds, and no more than fit.
    pub proof fn entries_are_found(&self)
        requires
            self.wf(),
        ensures
            self@.entries.dom().finite(),
            self@.entries.dom().len() + self.spent() <= self@.capacity <= u32::MAX,
            self@.marks.len() <= self@.capacity,
            forall|token: SlotToken| #[trigger]
                self@.entries.contains_key(token) <==> self@.lookup(token) is Occupied,
            forall|token: SlotToken| #[trigger]
                self@.entries.contains_key(token) ==> token.generation >= 1,
            self@.tabled(),
    {
        assert forall|token: SlotToken| #[trigger]
            self@.entries.contains_key(token) implies self@.lookup(token) is Occupied by {
            assert(self@.marks[token.slot as int] == self.slots@[token.slot as int].mark());
        }
        assert forall|token: SlotToken|
            self@.lookup(token) is Occupied implies #[trigger] self@.entries.contains_key(token) by {
            assert(self@.marks[token.slot as int] == self.slots@[token.slot as int].mark());
        }
    }

    /// A table for at most `capacity` values.
    pub fn new(capacity: u32) -> (table: Self)
        ensures
            table.wf(),
            table@ == SlotsView::<T>::unused(capacity as nat),
            table.spent() == 0,
    {
        let table: SlotRegistry<T> = SlotRegistry {
            slots: Vec::new(),
            free: Vec::new(),
            capacity: capacity as usize,
            live: 0,
            retired: 0,
        };
        assert(table@.entries =~= Map::empty());
        table
    }

    pub fn live(&self) -> (count: usize)
        requires
            self.wf(),
        ensures
            count == self@.entries.dom().len(),
    {
        self.live
    }

    pub fn has_capacity(&self) -> (room: bool)
        requires
            self.wf(),
        ensures
            room == (self@.entries.dom().len() + self.spent() < self@.capacity),
    {
        self.live + self.retired < self.capacity
    }

    /// How many slots are out of generations.
    pub fn retired(&self) -> (count: usize)
        ensures
            count == self.spent(),
    {
        self.retired
    }

    /// How many slots were used and can be used again.
    pub fn free(&self) -> (count: usize)
        requires
            self.wf(),
        ensures
            count == self@.marks.len() - self@.entries.dom().len() - self.spent(),
    {
        self.free.len()
    }

    /// Moves the value under `token` to a later generation of its slot.
    pub fn advance_generation(&mut self, token: SlotToken, generation: u32) -> (moved: Option<
        SlotToken,
    >)
        requires
            old(self).wf(),
        ensures
            final(self).wf(),
            final(self).spent() == old(self).spent(),
            moved is Some <==> old(self)@.entries.contains_key(token) && generation
                >= token.generation,
            match moved {
                Some(later) => {
                    &&& later == (SlotToken { slot: token.slot, generation })
                    &&& final(self)@ == (SlotsView {
                        entries: old(self)@.entries.remove(token).insert(
                            later,
                            old(self)@.entries[token],
                        ),
                        marks: old(self)@.marks.update(
                            token.slot as int,
                            SlotMark { generation, kind: SlotKind::Occupied },
                        ),
                        ..old(self)@
                    })
                },
                None => final(self)@ == old(self)@,
            },
    {
        if self.get(token).is_none() || generation < token.generation {
            return None;
        }
        let ghost slot = token.slot as int;
        assert forall|k: int| 0 <= k < old(self).free@.len() implies (#[trigger] old(
            self,
        ).free@[k]) != token.slot by {
            assert(old(self).slots@[old(self).free@[k] as int].state is Vacant);
        }
        self.slots[token.slot as usize].generation = generation;
        let later = SlotToken { slot: token.slot, generation };
        assert(self@.entries =~= old(self)@.entries.remove(token).insert(
            later,
            old(self)@.entries[token],
        ));
        assert(!old(self)@.entries.remove(token).contains_key(later));
        assert(self@.marks =~= old(self)@.marks.update(
            slot,
            SlotMark { generation, kind: SlotKind::Occupied },
        ));
        Some(later)
    }

    /// The token that the next value is stored under.
    pub fn next_token(&self) -> (next: Option<SlotToken>)
        requires
            self.wf(),
        ensures
            next is Some <==> self@.entries.dom().len() + self.spent() < self@.capacity,
            next matches Some(token) ==> token == self.upcoming() && self@.may_issue(token),
    {
        if self.free.len() > 0 {
            let slot: u32 = self.free[self.free.len() - 1];
            Some(SlotToken { slot, generation: self.slots[slot as usize].generation + 1 })
        } else if self.slots.len() < self.capacity {
            Some(SlotToken { slot: self.slots.len() as u32, generation: 1 })
        } else {
            None
        }
    }

    /// Stores `value` under a token that was never issued before, unless the table is full.
    pub fn allocate(&mut self, value: T) -> (result: Result<SlotToken, T>)
        requires
            old(self).wf(),
        ensures
            final(self).wf(),
            result is Ok <==> old(self)@.entries.dom().len() + old(self).spent()
                < old(self)@.capacity,
            match result {
                Ok(token) => {
                    &&& token == old(self).upcoming()
                    &&& old(self)@.may_issue(token)
                    &&& !old(self)@.entries.contains_key(token)
                    &&& final(self)@ == old(self)@.added(token, value)
                    &&& final(self).spent() == old(self).spent()
                },
                Err(refused) => refused == value && *final(self) == *old(self),
            },
    {
        let token: SlotToken;
        if self.free.len() > 0 {
            let slot: u32 = self.free.pop().unwrap();
            let generation: u32 = self.slots[slot as usize].generation + 1;
            token = SlotToken { slot, generation };
            self.slots.set(
                slot as usize,
                Slot { generation, state: SlotState::Occupied(value) },
            );
        } else if self.slots.len() < self.capacity {
            token = SlotToken { slot: self.slots.len() as u32, generation: 1 };
            self.slots.push(Slot { generation: 1, state: SlotState::Occupied(value) });
        } else {
            return Err(value);
        }
        self.live = self.live + 1;
        assert(self@.entries =~= old(self)@.entries.insert(token, value));
        assert(!old(self)@.entries.contains_key(token));
        assert(self@.marks =~= old(self)@.added(token, value).marks);
        Ok(token)
    }

    /// The value under `token`, or why there is none.
    pub fn lookup_ref(&self, token: SlotToken) -> (found: Lookup<&T>)
        requires
            self.wf(),
        ensures
            match self@.lookup(token) {
                Lookup::Occupied(value) => found == Lookup::Occupied(&value),
                Lookup::Duplicate => found == Lookup::<&T>::Duplicate,
                Lookup::Stale => found == Lookup::<&T>::Stale,
                Lookup::Unknown => found == Lookup::<&T>::Unknown,
                Lookup::Retired => found == Lookup::<&T>::Retired,
            },
            found is Occupied <==> self@.entries.contains_key(token),
    {
        if token.slot as usize >= self.slots.len() {
            return Lookup::Unknown;
        }
        let slot = &self.slots[token.slot as usize];
        if token.generation > slot.generation {
            Lookup::Unknown
        } else if token.generation < slot.generation {
            Lookup::Stale
        } else {
            match &slot.state {
                SlotState::Occupied(value) => Lookup::Occupied(value),
                SlotState::Vacant { completed } => if *completed {
                    Lookup::Duplicate
                } else {
                    Lookup::Stale
                },
                SlotState::Retired { completed } => if *completed {
                    Lookup::Duplicate
                } else {
                    Lookup::Retired
                },
            }
        }
    }

    pub fn get(&self, token: SlotToken) -> (found: Option<&T>)
        requires
            self.wf(),
        ensures
            match found {
                Some(value) => self@.entries.contains_key(token) && *value == self@.entries[token],
                None => !self@.entries.contains_key(token),
            },
    {
        match self.lookup_ref(token) {
            Lookup::Occupied(value) => Some(value),
            _ => None,
        }
    }

    /// Mutable access to the value under `token`.
    pub fn get_mut(&mut self, token: SlotToken) -> (found: Option<&mut T>)
        requires
            old(self).wf(),
        ensures
            match found {
                Some(value) => {
                    &&& old(self)@.entries.contains_key(token)
                    &&& *value == old(self)@.entries[token]
                    &&& final(self).wf()
                    &&& final(self)@ == old(self)@.set(token, *final(value))
                    &&& final(self).spent() == old(self).spent()
                },
                None => !old(self)@.entries.contains_key(token) && *final(self) == *old(self),
            },
    {
        if token.slot as usize >= self.slots.len() {
            return None;
        }
        if self.slots[token.slot as usize].generation != token.generation {
            return None;
        }
        if let SlotState::Occupied(_) = &self.slots[token.slot as usize].state {
        } else {
            return None;
        }
        let slot = &mut self.slots[token.slot as usize];
        match &mut slot.state {
            SlotState::Occupied(value) => {
                proof {
                    Self::replacing_keeps_shape(*old(self), after_borrow(*self), token, *final(value));
                }
                Some(value)
            },
            _ => None,
        }
    }

    proof fn replacing_keeps_shape(before: Self, after: Self, token: SlotToken, value: T)
        requires
            before.wf(),
            Self::holds(before.slots@, token),
            after.slots@ == before.slots@.update(
                token.slot as int,
                Slot { generation: token.generation, state: SlotState::Occupied(value) },
            ),
            after.free == before.free,
            after.capacity == before.capacity,
            after.live == before.live,
            after.retired == before.retired,
        ensures
            after.wf(),
            after@ == before@.set(token, value),
            after.spent() == before.spent(),
    {
        assert(after@.entries =~= before@.entries.insert(token, value));
        assert(after@.entries.dom() =~= before@.entries.dom());
        assert(after@.marks =~= before@.marks);
    }

    /// Takes the value under `token` out of the table. A slot whose generations
    /// are used up is never handed out again.
    pub fn release(&mut self, token: SlotToken, completed: bool) -> (released: Option<T>)
        requires
            old(self).wf(),
        ensures
            final(self).wf(),
            match released {
                Some(value) => {
                    &&& old(self)@.entries.contains_key(token)
                    &&& value == old(self)@.entries[token]
                    &&& final(self)@ == old(self)@.removed(token, completed)
                    &&& final(self).spent() == old(self).spent() + if token.generation == u32::MAX {
                        1int
                    } else {
                        0
                    }
                },
                None => !old(self)@.entries.contains_key(token) && *final(self) == *old(self),
            },
    {
        if token.slot as usize >= self.slots.len() {
            return None;
        }
        if self.slots[token.slot as usize].generation != token.generation {
            return None;
        }
        let occupied: bool = match &self.slots[token.slot as usize].state {
            SlotState::Occupied(_) => true,
            _ => false,
        };
        if !occupied {
            return None;
        }
        let spent: bool = token.generation == u32::MAX;
        let mut taken: Slot<T> = Slot {
            generation: token.generation,
            state: if spent {
                SlotState::Retired { completed }
            } else {
                SlotState::Vacant { completed }
            },
        };
        assert(old(self)@.entries.contains_key(token));
        assert(old(self)@.entries.dom().len() > 0) by {
            if old(self)@.entries.dom().len() == 0 {
                assert(old(self)@.entries.dom() =~= Set::empty());
            }
        }
        assert forall|k: int| 0 <= k < old(self).free@.len() implies (#[trigger] old(
            self,
        ).free@[k]) != token.slot by {
            assert(old(self).slots@[old(self).free@[k] as int].state is Vacant);
        }
        core::mem::swap(&mut self.slots[token.slot as usize], &mut taken);
        self.live = self.live - 1;
        if spent {
            self.retired = self.retired + 1;
        } else {
            self.free.push(token.slot);
        }
        assert(self@.entries =~= old(self)@.entries.remove(token));
        assert(self@.marks =~= old(self)@.removed(token, completed).marks);
        match taken.state {
            SlotState::Occupied(value) => Some(value),
            _ => None,
        }
    }

    /// The tokens of the occupied slots from `start` on, looking at no more than `budget` slots.
    ///
    /// Returns the tokens in slot order, the slot to go on from, whether the
    /// table's end was reached, and how many slots were looked at.
    pub fn scan_occupied_tokens(&self, start: usize, budget: usize) -> (scan: (
        Vec<SlotToken>,
        usize,
        bool,
        usize,
    ))
        requires
            self.wf(),
        ensures
            scan.2 <==> scan.1 >= self@.marks.len(),
            scan.1 == start + scan.3,
            scan.3 == self@.scanned(start as int, budget as int),
            scan.0@ == self@.occupied_between(start as int, scan.1 as int),
    {
        let mut tokens: Vec<SlotToken> = Vec::new();
        let mut next: usize = start;
        let mut scanned: usize = 0;
        while scanned < budget && next < self.slots.len()
            invariant
                self.wf(),
                scanned <= budget,
                next == start + scanned,
                start <= next,
                next <= self.slots.len() || next == start,
                tokens@ == self@.occupied_between(start as int, next as int),
            decreases budget - scanned,
        {
            let occupied: bool = match &self.slots[next].state {
                SlotState::Occupied(_) => true,
                _ => false,
            };
            if occupied {
                tokens.push(
                    SlotToken { slot: next as u32, generation: self.slots[next].generation },
                );
            }
            next = next + 1;
            scanned = scanned + 1;
        }
        (tokens, next, next >= self.slots.len(), scanned)
    }

    /// The tokens of all occupied slots, in slot order.
    pub fn occupied_tokens(&self) -> (tokens: Vec<SlotToken>)
        requires
            self.wf(),
        ensures
            tokens@ == self@.occupied_between(0, self@.marks.len() as int),
    {
        self.scan_occupied_tokens(0, self.slots.len()).0
    }
}

/// A table never issues a token twice: what it may hand out next was not
/// handed out before.
pub proof fn tokens_are_fresh<T>(table: SlotsView<T>, token: SlotToken)
    requires
        table.may_issue(token),
    ensures
        !table.issued(token),
{
}

/// Once issued, a token stays issued: neither filling, changing nor emptying a
/// slot makes the table forget it.
pub proof fn issued_tokens_stay_issued<T>(
    table: SlotsView<T>,
    token: SlotToken,
    other: SlotToken,
    value: T,
    completed: bool,
)
    requires
        table.issued(token),
    ensures
        table.may_issue(other) ==> table.added(other, value).issued(token),
        table.set(other, value).issued(token),
        table.lookup(other) is Occupied ==> table.removed(other, completed).issued(token),
{
}

/// A released token never resolves again, whatever is stored afterwards.
pub proof fn released_tokens_stay_released<T>(
    table: SlotsView<T>,
    token: SlotToken,
    other: SlotToken,
    value: T,
    completed: bool,
)
    requires
        table.issued(token),
        !(table.lookup(token) is Occupied),
    ensures
        table.may_issue(other) ==> !(table.added(other, value).lookup(token) is Occupied),
        !(table.set(other, value).lookup(token) is Occupied),
        table.lookup(other) is Occupied ==> !(table.removed(other, completed).lookup(
            token,
        ) is Occupied),
{
}

} // verus!
