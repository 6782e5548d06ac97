//! The capture registry: a table of slots, one for each helper subprocess
//! whose output is being collected.
//!
//! A slot is either empty or holds one stream. An index handed out by
//! [`CaptureRegistry::acquire`] stays valid until that slot is released: slots
//! are reused from the left and dropped only from the right end, so a hole in
//! the middle of the table stays where it is.

use vstd::prelude::*;

verus! {

/// The first index at or after `from` whose slot is empty; the length of the
/// table when every slot from there on is occupied.
pub open spec fn free_from<T>(slots: Seq<Option<T>>, from: int) -> int
    decreases slots.len() - from,
{
    if from < 0 || from >= slots.len() {
        slots.len() as int
    } else if slots[from] is None {
        from
    } else {
        free_from(slots, from + 1)
    }
}

/// The lowest empty index of the table, or its length when it has no empty
/// slot: the index that the next acquisition returns.
pub open spec fn lowest_free<T>(slots: Seq<Option<T>>) -> int {
    free_from(slots, 0)
}

/// The table after `stream` has taken the lowest empty slot, or a new slot at
/// the end when none is empty.
pub open spec fn occupied_with<T>(slots: Seq<Option<T>>, stream: T) -> Seq<Option<T>> {
    if lowest_free(slots) < slots.len() {
        slots.update(lowest_free(slots), Some(stream))
    } else {
        slots.push(Some(stream))
    }
}

/// The table after slot `index` has been emptied. Its length is unchanged.
pub open spec fn released<T>(slots: Seq<Option<T>>, index: int) -> Seq<Option<T>> {
    slots.update(index, None)
}

/// The table without its trailing empty slots. Empty slots that stand before
/// an occupied one are kept.
pub open spec fn trimmed<T>(slots: Seq<Option<T>>) -> Seq<Option<T>>
    decreases slots.len(),
{
    if slots.len() > 0 && slots.last() is None {
        trimmed(slots.drop_last())
    } else {
        slots
    }
}

/// The indices of the occupied slots among the first `upto`, in increasing
/// order.
pub open spec fn occupied_below<T>(slots: Seq<Option<T>>, upto: int) -> Seq<usize>
    decreases upto,
{
    if upto <= 0 {
        Seq::empty()
    } else if upto <= slots.len() && slots[upto - 1] is Some {
        occupied_below(slots, upto - 1).push((upto - 1) as usize)
    } else {
        occupied_below(slots, upto - 1)
    }
}

/// The indices of all occupied slots, in increasing order.
pub open spec fn occupied_indices<T>(slots: Seq<Option<T>>) -> Seq<usize> {
    occupied_below(slots, slots.len() as int)
}

/// The table after each of `streams` has been acquired in turn, with no
/// release in between.
pub open spec fn acquired_all<T>(slots: Seq<Option<T>>, streams: Seq<T>) -> Seq<Option<T>>
    decreases streams.len(),
{
    if streams.len() == 0 {
        slots
    } else {
        occupied_with(acquired_all(slots, streams.drop_last()), streams.last())
    }
}

/// Slot table for the output streams of concurrently running helpers.
pub struct CaptureRegistry<T> {
    slots: Vec<Option<T>>,
}

impl<T> View for CaptureRegistry<T> {
    type V = Seq<Option<T>>;

    closed spec fn view(&self) -> Seq<Option<T>> {
        self.slots@
    }
}

impl<T> CaptureRegistry<T> {
    /// A table without slots.
    pub fn new() -> (registry: Self)
        ensures
            registry@ == Seq::<Option<T>>::empty(),
    {
        CaptureRegistry { slots: Vec::new() }
    }

    /// The number of slots, empty ones included.
    pub fn len(&self) -> (n: usize)
        ensures
            n == self@.len(),
    {
        self.slots.len()
    }

    /// Whether the table has no slot at all.
    pub fn is_empty(&self) -> (none: bool)
        ensures
            none == (self@.len() == 0),
    {
        self.slots.len() == 0
    }

    /// Whether `index` names a slot that holds a stream.
    pub fn is_occupied(&self, index: usize) -> (held: bool)
        ensures
            held == (index < self@.len() && self@[index as int] is Some),
    {
        index < self.slots.len() && self.slots[index].is_some()
    }

    /// The stream held in slot `index`, if that slot exists and is occupied.
    pub fn stream(&self, index: usize) -> (held: Option<&T>)
        ensures
            index < self@.len() ==> held == match self@[index as int] {
                Some(stream) => Some(&stream),
                None => None,
            },
            index >= self@.len() ==> held is None,
    {
        if index < self.slots.len() {
            self.slots[index].as_ref()
        } else {
            None
        }
    }

    /// Puts `stream` into the first empty slot, scanning from the left, and
    /// returns that slot's index. When no slot is empty a new one is added at
    /// the end.
    pub fn acquire(&mut self, stream: T) -> (index: usize)
        ensures
            index == lowest_free(old(self)@),
            final(self)@ == occupied_with(old(self)@, stream),
            index < final(self)@.len(),
            final(self)@[index as int] == Some(stream),
    {
        let mut i: usize = 0;
        while i < self.slots.len()
            invariant
                i <= self.slots@.len(),
                self.slots@ == old(self)@,
                free_from(self.slots@, i as int) == lowest_free(self.slots@),
            decreases self.slots@.len() - i,
        {
            if self.slots[i].is_none() {
                self.slots[i] = Some(stream);
                return i;
            }
            i += 1;
        }
        self.slots.push(Some(stream));
        i
    }

    /// Empties slot `index`. The table keeps its length; the slot can be
    /// handed out again.
    pub fn release(&mut self, index: usize)
        requires
            index < old(self)@.len(),
        ensures
            final(self)@ == released(old(self)@, index as int),
    {
        self.slots[index] = None;
    }

    /// Removes empty slots from the end of the table until the last slot is
    /// occupied or the table is empty.
    pub fn compact_trailing(&mut self)
        ensures
            final(self)@ == trimmed(old(self)@),
    {
        while self.slots.len() > 0 && self.slots[self.slots.len() - 1].is_none()
            invariant
                trimmed(self.slots@) == trimmed(old(self)@),
            decreases self.slots@.len(),
        {
            self.slots.pop();
        }
    }

    /// The indices of the occupied slots, in increasing order.
    pub fn occupied(&self) -> (indices: Vec<usize>)
        ensures
            indices@ == occupied_indices(self@),
    {
        let mut indices: Vec<usize> = Vec::new();
        let mut i: usize = 0;
        while i < self.slots.len()
            invariant
                i <= self.slots@.len(),
                indices@ == occupied_below(self.slots@, i as int),
            decreases self.slots@.len() - i,
        {
            if self.slots[i].is_some() {
                indices.push(i);
            }
            i += 1;
        }
        indices
    }
}

proof fn lemma_free_from<T>(slots: Seq<Option<T>>, from: int)
    requires
        0 <= from <= slots.len(),
    ensures
        from <= free_from(slots, from) <= slots.len(),
        forall|j: int| from <= j < free_from(slots, from) ==> slots[j] is Some,
        free_from(slots, from) < slots.len() ==> slots[free_from(slots, from)] is None,
    decreases slots.len() - from,
{
    if from < slots.len() && slots[from] is Some {
        lemma_free_from(slots, from + 1);
    }
}

proof fn lemma_free_from_found<T>(slots: Seq<Option<T>>, from: int, index: int)
    requires
        0 <= from <= index <= slots.len(),
        forall|j: int| from <= j < index ==> slots[j] is Some,
        index < slots.len() ==> slots[index] is None,
    ensures
        free_from(slots, from) == index,
    decreases index - from,
{
    if from < index {
        lemma_free_from_found(slots, from + 1, index);
    }
}

/// Compaction removes empty slots from the end and nothing else: what is
/// left is the table up to its last occupied slot, unchanged.
pub proof fn law_compaction_drops_trailing_empties<T>(slots: Seq<Option<T>>)
    ensures
        trimmed(slots).len() <= slots.len(),
        trimmed(slots) == slots.take(trimmed(slots).len() as int),
        trimmed(slots).len() > 0 ==> trimmed(slots).last() is Some,
        forall|j: int| trimmed(slots).len() <= j < slots.len() ==> slots[j] is None,
    decreases slots.len(),
{
    if slots.len() > 0 && slots.last() is None {
        law_compaction_drops_trailing_empties(slots.drop_last());
        assert forall|j: int| trimmed(slots).len() <= j < slots.len() implies slots[j] is None by {}
    } else {
        assert(slots.take(slots.len() as int) =~= slots);
    }
}

/// The index that an acquisition returns is the lowest empty one: every slot
/// before it is occupied, and it is either an empty slot or, when the table
/// has no empty slot, the table's length.
pub proof fn law_lowest_free_is_first_empty<T>(slots: Seq<Option<T>>)
    ensures
        0 <= lowest_free(slots) <= slots.len(),
        forall|j: int| 0 <= j < lowest_free(slots) ==> slots[j] is Some,
        lowest_free(slots) < slots.len() ==> slots[lowest_free(slots)] is None,
{
    lemma_free_from(slots, 0);
}

/// An index that was handed out stays good until its own slot is released:
/// no acquisition, no release of another slot and no compaction moves or
/// empties the slot that holds `stream`.
pub proof fn law_held_slot_is_stable<T>(slots: Seq<Option<T>>, index: int, stream: T)
    requires
        0 <= index < slots.len(),
        slots[index] == Some(stream),
    ensures
        forall|other: T|
            index < (#[trigger] occupied_with(slots, other)).len() && occupied_with(
                slots,
                other,
            )[index] == Some(stream),
        forall|elsewhere: int|
            0 <= elsewhere < slots.len() && elsewhere != index ==> (#[trigger] released(
                slots,
                elsewhere,
            ))[index] == Some(stream),
        index < trimmed(slots).len(),
        trimmed(slots)[index] == Some(stream),
{
    law_lowest_free_is_first_empty(slots);
    law_compaction_drops_trailing_empties(slots);
}

/// Acquisitions without a release in between, on a table that has no empty
/// slot: each one adds exactly one slot at the end and returns its index.
/// Starting from the empty table, the indices returned are 0, 1, 2, and so on.
pub proof fn law_acquire_in_sequence<T>(slots: Seq<Option<T>>, streams: Seq<T>, k: int)
    requires
        forall|i: int| 0 <= i < slots.len() ==> slots[i] is Some,
        0 <= k <= streams.len(),
    ensures
        acquired_all(slots, streams.take(k)) == slots + streams.take(k).map_values(
            |stream: T| Some(stream),
        ),
        acquired_all(slots, streams.take(k)).len() == slots.len() + k,
        lowest_free(acquired_all(slots, streams.take(k))) == slots.len() + k,
    decreases k,
{
    let full = slots + streams.take(k).map_values(|stream: T| Some(stream));
    if k > 0 {
        law_acquire_in_sequence(slots, streams, k - 1);
        assert(streams.take(k).drop_last() =~= streams.take(k - 1));
    }
    lemma_free_from_found(full, 0, full.len() as int);
}

/// Reuse before append: once slot `index` is released and every slot before it
/// is occupied, the next acquisition returns `index` and fills that slot again.
pub proof fn law_release_then_acquire_reuses<T>(slots: Seq<Option<T>>, index: int, stream: T)
    requires
        0 <= index < slots.len(),
        forall|j: int| 0 <= j < index ==> slots[j] is Some,
    ensures
        lowest_free(released(slots, index)) == index,
        occupied_with(released(slots, index), stream) == slots.update(index, Some(stream)),
{
    lemma_free_from_found(released(slots, index), 0, index);
}

proof fn lemma_trimmed_ignores_trailing_empties<T>(slots: Seq<Option<T>>, upto: int)
    requires
        0 <= upto <= slots.len(),
        forall|j: int| upto <= j < slots.len() ==> slots[j] is None,
    ensures
        trimmed(slots) == trimmed(slots.take(upto)),
    decreases slots.len() - upto,
{
    if upto < slots.len() {
        let shorter = slots.drop_last();
        lemma_trimmed_ignores_trailing_empties(shorter, upto);
        assert(shorter.take(upto) =~= slots.take(upto));
    } else {
        assert(slots.take(upto) =~= slots);
    }
}

/// Releasing the highest occupied slot lets compaction shrink the table: by
/// that slot and by the empty slots that stood directly before it. When the
/// slot before it is occupied, or there is none, the table shrinks by exactly
/// one.
pub proof fn law_release_of_highest_shrinks<T>(slots: Seq<Option<T>>, index: int)
    requires
        0 <= index < slots.len(),
        slots[index] is Some,
        forall|j: int| index < j < slots.len() ==> slots[j] is None,
    ensures
        trimmed(slots).len() == index + 1,
        trimmed(released(slots, index)) == trimmed(slots.take(index)),
        trimmed(released(slots, index)).len() <= index,
        index == 0 || slots[index - 1] is Some ==> trimmed(released(slots, index)).len() == index,
{
    lemma_trimmed_ignores_trailing_empties(slots, index + 1);
    let after = released(slots, index);
    lemma_trimmed_ignores_trailing_empties(after, index);
    assert(after.take(index) =~= slots.take(index));
    law_compaction_drops_trailing_empties(slots.take(index));
}

/// Releasing a slot that has an occupied slot after it never shrinks the
/// table: compaction leaves the hole in place and the length as it would
/// have been without the release.
pub proof fn law_release_inside_keeps_length<T>(slots: Seq<Option<T>>, index: int, later: int)
    requires
        0 <= index < later < slots.len(),
        slots[later] is Some,
    ensures
        trimmed(released(slots, index)) == released(trimmed(slots), index),
        trimmed(released(slots, index)).len() == trimmed(slots).len(),
        slots.last() is Some ==> trimmed(released(slots, index)).len() == slots.len(),
    decreases slots.len(),
{
    let after = released(slots, index);
    if slots.last() is None {
        assert(after.drop_last() =~= released(slots.drop_last(), index));
        law_release_inside_keeps_length(slots.drop_last(), index, later);
    }
}

/// The slots that a pass reads are exactly the occupied ones, each once and
/// in increasing order.
pub proof fn law_occupied_indices_are_the_occupied_slots<T>(slots: Seq<Option<T>>)
    requires
        slots.len() <= usize::MAX,
    ensures
        forall|k: int|
            0 <= k < occupied_indices(slots).len() ==> (#[trigger] occupied_indices(slots)[k])
                < slots.len() && slots[occupied_indices(slots)[k] as int] is Some,
        forall|a: int, b: int|
            0 <= a < b < occupied_indices(slots).len() ==> (#[trigger] occupied_indices(slots)[a])
                < (#[trigger] occupied_indices(slots)[b]),
        forall|index: int|
            0 <= index < slots.len() && (#[trigger] slots[index]) is Some ==> exists|k: int|
                0 <= k < occupied_indices(slots).len() && (#[trigger] occupied_indices(slots)[k])
                    == index,
{
    lemma_occupied_below(slots, slots.len() as int);
}

proof fn lemma_occupied_below<T>(slots: Seq<Option<T>>, upto: int)
    requires
        0 <= upto <= slots.len(),
        slots.len() <= usize::MAX,
    ensures
        forall|k: int|
            0 <= k < occupied_below(slots, upto).len() ==> (#[trigger] occupied_below(slots, upto)[k])
                < upto && slots[occupied_below(slots, upto)[k] as int] is Some,
        forall|a: int, b: int|
            0 <= a < b < occupied_below(slots, upto).len() ==> (#[trigger] occupied_below(
                slots,
                upto,
            )[a]) < (#[trigger] occupied_below(slots, upto)[b]),
        forall|index: int|
            0 <= index < upto && (#[trigger] slots[index]) is Some ==> exists|k: int|
                0 <= k < occupied_below(slots, upto).len() && (#[trigger] occupied_below(
                    slots,
                    upto,
                )[k]) == index,
    decreases upto,
{
    if upto > 0 {
        lemma_occupied_below(slots, upto - 1);
        let before = occupied_below(slots, upto - 1);
        let now = occupied_below(slots, upto);
        assert forall|index: int| 0 <= index < upto && (#[trigger] slots[index]) is Some implies exists|
            k: int,
        | 0 <= k < now.len() && (#[trigger] now[k]) == index by {
            if index < upto - 1 {
                let k = choose|k: int| 0 <= k < before.len() && (#[trigger] before[k]) == index;
                assert(now[k] == index);
            } else {
                assert(now[now.len() - 1] == index);
            }
        }
    }
}

} // verus!
