//! Dirty region tracking: which rows have to be drawn again.
use vstd::prelude::*;

verus! {

/// The number of flags that are set.
pub open spec fn count_set(flags: Seq<bool>) -> nat
    decreases flags.len(),
{
    if flags.len() == 0 {
        0
    } else {
        count_set(flags.drop_last()) + if flags.last() {
            1nat
        } else {
            0nat
        }
    }
}

/// Tracks the rows that changed since they were last drawn.
pub struct DirtyTracker {
    pub dirty: Vec<bool>,
    pub all_dirty: bool,
}

impl DirtyTracker {
    /// Whether `row` has to be drawn again: everything has, or the row is
    /// tracked and marked.
    pub open spec fn dirty_at(&self, row: int) -> bool {
        self.all_dirty || (0 <= row < self.dirty@.len() && self.dirty@[row])
    }

    /// A tracker of `rows` rows, all of them dirty.
    pub fn new(rows: usize) -> (t: DirtyTracker)
        ensures
            t.all_dirty,
            t.dirty@ == Seq::new(rows as nat, |i: int| true),
    {
        DirtyTracker { dirty: filled(rows, true), all_dirty: true }
    }

    /// Mark a specific row as dirty.
    pub fn mark_row(&mut self, row: usize)
        ensures
            final(self).all_dirty == old(self).all_dirty,
            final(self).dirty@ == (if row < old(self).dirty@.len() {
                old(self).dirty@.update(row as int, true)
            } else {
                old(self).dirty@
            }),
    {
        if row < self.dirty.len() {
            self.dirty[row] = true;
        }
    }

    /// Mark a range of rows as dirty.
    pub fn mark_range(&mut self, start: usize, end: usize)
        ensures
            final(self).all_dirty == old(self).all_dirty,
            final(self).dirty@ == Seq::new(
                old(self).dirty@.len(),
                |i: int| (start <= i < end) || old(self).dirty@[i],
            ),
    {
        let stop = if end < self.dirty.len() {
            end
        } else {
            self.dirty.len()
        };
        let mut r: usize = start;
        while r < stop
            invariant
                stop <= self.dirty@.len(),
                stop <= end,
                stop == end || stop == self.dirty@.len(),
                start <= r,
                r <= stop || r == start,
                self.all_dirty == old(self).all_dirty,
                self.dirty@.len() == old(self).dirty@.len(),
                forall|i: int|
                    0 <= i < self.dirty@.len() ==> self.dirty@[i] == ((start <= i < r) || old(
                        self,
                    ).dirty@[i]),
            decreases stop - r,
        {
            self.dirty[r] = true;
            r += 1;
        }
        assert(self.dirty@ =~= Seq::new(
            old(self).dirty@.len(),
            |i: int| (start <= i < end) || old(self).dirty@[i],
        ));
    }

    /// Mark everything dirty (e.g. after resize or clear).
    pub fn mark_all(&mut self)
        ensures
            final(self).all_dirty,
            final(self).dirty@ == Seq::new(old(self).dirty@.len(), |i: int| true),
    {
        self.all_dirty = true;
        self.dirty = filled(self.dirty.len(), true);
    }

    /// Check if a row needs redrawing.
    pub fn is_dirty(&self, row: usize) -> (b: bool)
        ensures
            b == self.dirty_at(row as int),
    {
        self.all_dirty || (row < self.dirty.len() && self.dirty[row])
    }

    /// Check if anything needs redrawing.
    pub fn has_dirty(&self) -> (b: bool)
        ensures
            b == (self.all_dirty || exists|i: int| 0 <= i < self.dirty@.len() && self.dirty@[i]),
    {
        if self.all_dirty {
            return true;
        }
        let mut i: usize = 0;
        while i < self.dirty.len()
            invariant
                i <= self.dirty@.len(),
                forall|j: int| 0 <= j < i ==> !self.dirty@[j],
            decreases self.dirty.len() - i,
        {
            if self.dirty[i] {
                return true;
            }
            i += 1;
        }
        false
    }

    /// Clear all dirty flags after rendering.
    pub fn clear(&mut self)
        ensures
            !final(self).all_dirty,
            final(self).dirty@ == Seq::new(old(self).dirty@.len(), |i: int| false),
    {
        self.all_dirty = false;
        self.dirty = filled(self.dirty.len(), false);
    }

    /// Resize tracker (marks all dirty).
    pub fn resize(&mut self, rows: usize)
        ensures
            final(self).all_dirty,
            final(self).dirty@ == Seq::new(rows as nat, |i: int| true),
    {
        self.dirty = filled(rows, true);
        self.all_dirty = true;
    }

    /// Count of dirty rows.
    pub fn dirty_count(&self) -> (n: usize)
        ensures
            n == (if self.all_dirty {
                self.dirty@.len()
            } else {
                count_set(self.dirty@)
            }),
    {
        if self.all_dirty {
            return self.dirty.len();
        }
        let mut n: usize = 0;
        let mut i: usize = 0;
        assert(self.dirty@.take(0) =~= Seq::<bool>::empty());
        while i < self.dirty.len()
            invariant
                i <= self.dirty@.len(),
                n <= i,
                n == count_set(self.dirty@.take(i as int)),
            decreases self.dirty.len() - i,
        {
            assert(self.dirty@.take(i + 1).drop_last() =~= self.dirty@.take(i as int));
            if self.dirty[i] {
                n += 1;
            }
            i += 1;
        }
        assert(self.dirty@.take(self.dirty.len() as int) =~= self.dirty@);
        n
    }
}

fn filled(len: usize, value: bool) -> (v: Vec<bool>)
    ensures
        v@ == Seq::new(len as nat, |i: int| value),
{
    let mut v: Vec<bool> = Vec::with_capacity(len);
    let mut i: usize = 0;
    while i < len
        invariant
            i <= len,
            v@.len() == i,
            forall|j: int| 0 <= j < i ==> v@[j] == value,
        decreases len - i,
    {
        v.push(value);
        i += 1;
    }
    assert(v@ =~= Seq::new(len as nat, |i: int| value));
    v
}

} // verus!
