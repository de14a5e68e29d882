//! The fallback table: full addresses for the handles that no mask can hold.
//!
//! A slot that holds zero is free. Indices are counted from one, so that a
//! handle never holds zero. The cursor is the position at which the next scan
//! for a free slot starts; no operation moves it backward.

use vstd::prelude::*;

verus! {

/// What a fallback table holds: its slots in order, and its cursor.
pub struct TableView {
    pub slots: Seq<u64>,
    pub cursor: nat,
}

/// The first position at or after `from` whose slot is free, or the length of
/// `slots` where there is none.
pub open spec fn first_free(slots: Seq<u64>, from: int) -> int
    decreases slots.len() - from,
{
    if from < 0 || from >= slots.len() {
        slots.len() as int
    } else if slots[from] == 0 {
        from
    } else {
        first_free(slots, from + 1)
    }
}

impl TableView {
    /// The cursor lies within the table or at its end.
    pub open spec fn wf(self) -> bool {
        self.cursor <= self.slots.len()
    }

    /// The position that the next listing writes: the first free slot at or
    /// after the cursor, or the end of the table.
    pub open spec fn next_slot(self) -> int {
        first_free(self.slots, self.cursor as int)
    }

    /// The index that the next listing returns.
    pub open spec fn next_index(self) -> int {
        self.next_slot() + 1
    }

    /// Whether `index` names a slot of the table.
    pub open spec fn holds(self, index: int) -> bool {
        1 <= index <= self.slots.len()
    }

    /// The position that the listing after the next one writes.
    pub open spec fn second_slot(self) -> int {
        let at = self.next_slot();
        if at < self.slots.len() {
            first_free(self.slots, at + 1)
        } else {
            at + 1
        }
    }

    /// The table after `addr` has been listed.
    pub open spec fn list(self, addr: u64) -> TableView {
        let at = self.next_slot();
        TableView {
            slots: if at < self.slots.len() {
                self.slots.update(at, addr)
            } else {
                self.slots.push(addr)
            },
            cursor: (at + 1) as nat,
        }
    }

    /// The table after the slot of `index` has been freed.
    pub open spec fn unlist(self, index: int) -> TableView {
        TableView { slots: self.slots.update(index - 1, 0), cursor: self.cursor }
    }

    /// The address in the slot of `index`.
    pub open spec fn resolve(self, index: int) -> u64 {
        self.slots[index - 1]
    }
}

/// `first_free` returns the least free position from `from` on: every slot
/// before it is taken, and it is free unless it is the end of the table.
pub proof fn lemma_first_free(slots: Seq<u64>, from: int)
    requires
        0 <= from <= slots.len(),
    ensures
        from <= first_free(slots, from) <= slots.len(),
        forall|j: int| from <= j < first_free(slots, from) ==> slots[j] != 0,
        first_free(slots, from) < slots.len() ==> slots[first_free(slots, from)] == 0,
    decreases slots.len() - from,
{
    if from < slots.len() && slots[from] != 0 {
        lemma_first_free(slots, from + 1);
    }
}

/// A position at or after `from` that is free, with only taken slots between
/// the two, is the one that `first_free` returns.
pub proof fn lemma_first_free_is(slots: Seq<u64>, from: int, at: int)
    requires
        0 <= from <= at <= slots.len(),
        forall|j: int| from <= j < at ==> slots[j] != 0,
        at < slots.len() ==> slots[at] == 0,
    ensures
        first_free(slots, from) == at,
    decreases at - from,
{
    if from < at {
        lemma_first_free_is(slots, from + 1, at);
    }
}

/// Two tables of one length that hold the same from `from` on have their
/// first free position from `from` on in common.
pub proof fn lemma_first_free_agrees(a: Seq<u64>, b: Seq<u64>, from: int)
    requires
        a.len() == b.len(),
        0 <= from,
        forall|j: int| from <= j < a.len() ==> a[j] == b[j],
    ensures
        first_free(a, from) == first_free(b, from),
    decreases a.len() - from,
{
    if from < a.len() && a[from] != 0 {
        lemma_first_free_agrees(a, b, from + 1);
    }
}

/// A listing keeps the table well formed, takes the slot of the index that it
/// returns, which was free if it was there, leaves every other slot as it was,
/// and makes the table longer by at most one slot. The listing after it writes
/// the position that `second_slot` tells.
pub proof fn lemma_list(table: TableView, addr: u64)
    requires
        table.wf(),
    ensures
        table.list(addr).wf(),
        table.cursor < table.next_index() <= table.slots.len() + 1,
        table.list(addr).holds(table.next_index()),
        table.list(addr).resolve(table.next_index()) == addr,
        table.list(addr).slots.len() == if table.next_slot() < table.slots.len() {
            table.slots.len()
        } else {
            table.slots.len() + 1
        },
        forall|index: int|
            table.holds(index) && index != table.next_index() ==> table.list(addr).resolve(index)
                == table.resolve(index),
        table.holds(table.next_index()) ==> table.resolve(table.next_index()) == 0,
        table.list(addr).next_slot() == table.second_slot(),
{
    lemma_first_free(table.slots, table.cursor as int);
    let at = table.next_slot();
    let after = table.list(addr);
    if at < table.slots.len() {
        lemma_first_free_agrees(after.slots, table.slots, at + 1);
    }
}

/// A table of full addresses, with the position from which it looks for a
/// free slot.
pub struct FallbackTable {
    slots: Vec<u64>,
    cursor: usize,
}

impl FallbackTable {
    /// What the table holds.
    pub closed spec fn view(&self) -> TableView {
        TableView { slots: self.slots@, cursor: self.cursor as nat }
    }

    /// The invariant of the table.
    pub open spec fn wf(&self) -> bool {
        self@.wf()
    }

    /// An empty table.
    pub fn new() -> (table: Self)
        ensures
            table.wf(),
            table@.slots.len() == 0,
            table@.cursor == 0,
    {
        FallbackTable { slots: Vec::new(), cursor: 0 }
    }

    /// The number of slots, free ones included.
    pub fn len(&self) -> (n: usize)
        ensures
            n == self@.slots.len(),
    {
        self.slots.len()
    }

    /// The position from which the next scan for a free slot starts.
    pub fn cursor(&self) -> (at: usize)
        ensures
            at == self@.cursor,
    {
        self.cursor
    }

    /// Whether `index` names a slot of the table.
    pub fn holds(&self, index: usize) -> (ok: bool)
        ensures
            ok == self@.holds(index as int),
    {
        1 <= index && index <= self.slots.len()
    }

    /// The first free position at or after `from`, or the length of the table.
    pub fn scan(&self, from: usize) -> (at: usize)
        requires
            from <= self@.slots.len(),
        ensures
            at == first_free(self@.slots, from as int),
            from <= at <= self@.slots.len(),
    {
        let len = self.slots.len();
        let mut at: usize = from;
        while at < len && self.slots[at] != 0
            invariant
                len == self.slots@.len(),
                from <= at <= len,
                forall|j: int| from <= j < at ==> self.slots@[j] != 0,
            decreases len - at,
        {
            at += 1;
        }
        proof {
            lemma_first_free_is(self.slots@, from as int, at as int);
        }
        at
    }

    /// Stores `addr` in the first free slot at or after the cursor, or in a
    /// new slot at the end, and returns the index of that slot. The cursor
    /// moves past it.
    pub fn list(&mut self, addr: u64) -> (index: usize)
        requires
            old(self).wf(),
        ensures
            final(self).wf(),
            final(self)@ == old(self)@.list(addr),
            index == old(self)@.next_index(),
            final(self)@.holds(index as int),
            final(self)@.resolve(index as int) == addr,
    {
        let at = self.scan(self.cursor);
        if at < self.slots.len() {
            self.slots[at] = addr;
            self.cursor = at + 1;
        } else {
            self.slots.push(addr);
            self.cursor = self.slots.len();
        }
        self.cursor
    }

    /// Frees the slot of `index`. The table keeps its length and its cursor.
    pub fn unlist(&mut self, index: usize)
        requires
            old(self).wf(),
            old(self)@.holds(index as int),
        ensures
            final(self).wf(),
            final(self)@ == old(self)@.unlist(index as int),
    {
        self.slots[index - 1] = 0;
    }

    /// The address in the slot of `index`.
    pub fn resolve(&self, index: usize) -> (addr: u64)
        requires
            self@.holds(index as int),
        ensures
            addr == self@.resolve(index as int),
    {
        self.slots[index - 1]
    }
}

} // verus!
