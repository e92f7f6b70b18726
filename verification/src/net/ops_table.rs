//! Operation tables: the records of callbacks through which the kernel calls
//! a driver.
//!
//! A table has one slot for each operation of its kind, in the order in which
//! the kernel's record lists them. A slot either holds the driver's entry
//! point for its operation or is null. Since a slot can hold nothing but the
//! entry point of its own operation, a table is told by which of its slots
//! are populated.

use vstd::prelude::*;

verus! {

/// An operation table: for each slot, whether it is populated.
#[derive(Debug, PartialEq, Eq)]
pub struct OpsTable {
    slots: Vec<bool>,
}

impl View for OpsTable {
    type V = Seq<bool>;

    /// The slots in the table's order: `true` for a populated one.
    closed spec fn view(&self) -> Seq<bool> {
        self.slots@
    }
}

impl OpsTable {
    /// The table with `count` slots and none of them populated.
    pub fn empty(count: usize) -> (table: OpsTable)
        ensures
            table@.len() == count,
            forall|k: int| 0 <= k < count ==> !(#[trigger] table@[k]),
            populated(table@) == 0,
    {
        let mut slots: Vec<bool> = Vec::new();
        let mut i: usize = 0;
        while i < count
            invariant
                i <= count,
                slots@.len() == i,
                forall|k: int| 0 <= k < i ==> !(#[trigger] slots@[k]),
                populated(slots@) == 0,
            decreases count - i,
        {
            let ghost before = slots@;
            slots.push(false);
            proof {
                assert(slots@.drop_last() =~= before);
            }
            i += 1;
        }
        OpsTable { slots }
    }

    /// Populates slot `index`: the slot now holds the entry point of its
    /// operation, every other slot is as it was.
    pub fn populate(&mut self, index: usize)
        requires
            index < old(self)@.len(),
        ensures
            final(self)@ == old(self)@.update(index as int, true),
            populated(final(self)@) == populated(old(self)@) + if old(self)@[index as int] {
                0nat
            } else {
                1nat
            },
    {
        proof {
            lemma_populate_counts(self.slots@, index as int);
        }
        self.slots.set(index, true);
    }

    /// Number of slots.
    pub fn len(&self) -> (n: usize)
        ensures
            n == self@.len(),
    {
        self.slots.len()
    }

    /// Whether slot `index` is populated. An index behind the last slot
    /// names none, and so none that is populated.
    pub fn is_populated(&self, index: usize) -> (r: bool)
        ensures
            r == (index < self@.len() && self@[index as int]),
    {
        index < self.slots.len() && self.slots[index]
    }

    /// Number of populated slots.
    pub fn count_populated(&self) -> (n: usize)
        ensures
            n == populated(self@),
    {
        let mut n: usize = 0;
        let mut i: usize = 0;
        while i < self.slots.len()
            invariant
                i <= self.slots@.len(),
                n == populated(self.slots@.take(i as int)),
                n <= i,
            decreases self.slots@.len() - i,
        {
            proof {
                assert(self.slots@.take(i + 1).drop_last() =~= self.slots@.take(i as int));
            }
            if self.slots[i] {
                n += 1;
            }
            i += 1;
        }
        proof {
            assert(self.slots@.take(i as int) =~= self.slots@);
        }
        n
    }
}

/// Number of populated slots among `slots`.
pub open spec fn populated(slots: Seq<bool>) -> nat
    decreases slots.len(),
{
    if slots.len() == 0 {
        0
    } else {
        populated(slots.drop_last()) + if slots.last() {
            1nat
        } else {
            0nat
        }
    }
}

/// Populating a slot that was null adds one to the populated slots;
/// populating a populated one changes nothing.
pub proof fn lemma_populate_counts(slots: Seq<bool>, index: int)
    requires
        0 <= index < slots.len(),
    ensures
        populated(slots.update(index, true)) == populated(slots) + if slots[index] {
            0nat
        } else {
            1nat
        },
    decreases slots.len(),
{
    let after = slots.update(index, true);
    if index == slots.len() - 1 {
        assert(after.drop_last() =~= slots.drop_last());
    } else {
        assert(after.drop_last() =~= slots.drop_last().update(index, true));
        lemma_populate_counts(slots.drop_last(), index);
    }
}

} // verus!
