//! A window of plot points: the newest points, at most a set number of them.
use vstd::prelude::*;

verus! {

/// `items` with its oldest elements dropped until at most `length` remain.
pub open spec fn keep_newest<T>(items: Seq<T>, length: nat) -> Seq<T> {
    if items.len() > length {
        items.subrange(items.len() - length, items.len() as int)
    } else {
        items
    }
}

/// Adding a point to a window of `length` places holding `before`: while
/// fewer than `length` points are held nothing is dropped; otherwise the
/// oldest are dropped until exactly `length` remain. The result always ends
/// with the points added, newest last.
pub proof fn lemma_add_keeps_newest<T>(before: Seq<T>, xy: T, length: nat)
    ensures
        before.len() < length ==> keep_newest(before.push(xy), length) == before.push(xy),
        keep_newest(before.push(xy), length).len() == if before.len() < length {
            before.len() + 1
        } else {
            length
        },
        forall|i: int|
            0 <= i < keep_newest(before.push(xy), length).len() ==> #[trigger] keep_newest(
                before.push(xy),
                length,
            )[i] == before.push(xy)[before.len() + 1 - keep_newest(before.push(xy), length).len()
                + i],
        length > 0 ==> keep_newest(before.push(xy), length).last() == xy,
{
}

/// A window never drops points it has room for.
pub proof fn lemma_keep_newest_within_length<T>(items: Seq<T>, length: nat)
    requires
        items.len() <= length,
    ensures
        keep_newest(items, length) == items,
{
}

/// Collection of plot points, oldest first, that keeps the newest `length` of
/// those added.
pub struct PlotData<T> {
    length: usize,
    xy: Vec<T>,
    is_changed: bool,
}

impl<T: Copy> PlotData<T> {
    /// The points held, oldest first.
    pub closed spec fn points(&self) -> Seq<T> {
        self.xy@
    }

    /// The number of points kept when points are added.
    pub closed spec fn length(&self) -> nat {
        self.length as nat
    }

    /// Whether the points changed since they were last read with [PlotData::xy].
    pub closed spec fn changed(&self) -> bool {
        self.is_changed
    }

    /// Creates a window of `length` points, all `zero`, marked as changed.
    pub fn new(length: usize, zero: T) -> (res: Self)
        ensures
            res.points() == Seq::new(length as nat, |i: int| zero),
            res.length() == length,
            res.changed(),
    {
        let mut xy: Vec<T> = Vec::new();
        let mut i: usize = 0;
        while i < length
            invariant
                i <= length,
                xy@ == Seq::new(i as nat, |j: int| zero),
            decreases length - i,
        {
            xy.push(zero);
            i = i + 1;
            assert(xy@ =~= Seq::new(i as nat, |j: int| zero));
        }
        PlotData { length, xy, is_changed: true }
    }

    /// Returns true if the points changed since they were last read with [PlotData::xy].
    pub fn is_changed(&self) -> (res: bool)
        ensures
            res == self.changed(),
    {
        self.is_changed
    }

    /// Adds a point, the same as [PlotData::add].
    pub fn push(&mut self, xy: T)
        ensures
            final(self).points() == keep_newest(old(self).points().push(xy), old(self).length()),
            final(self).length() == old(self).length(),
            final(self).changed(),
    {
        self.add(xy)
    }

    /// Appends a point, then drops the oldest points until no more than
    /// `length` remain; marks the points as changed.
    pub fn add(&mut self, xy: T)
        ensures
            final(self).points() == keep_newest(old(self).points().push(xy), old(self).length()),
            final(self).points().len() <= final(self).length(),
            final(self).length() == old(self).length(),
            final(self).changed(),
    {
        self.xy.push(xy);
        let ghost all = self.xy@;
        while self.xy.len() > self.length
            invariant
                self.length == old(self).length,
                all == old(self).xy@.push(xy),
                self.xy.len() <= all.len(),
                self.xy.len() == all.len() || self.xy.len() >= self.length,
                self.xy@ == all.subrange(all.len() - self.xy.len(), all.len() as int),
            decreases self.xy.len(),
        {
            self.xy.remove(0);
            assert(self.xy@ =~= all.subrange(all.len() - self.xy.len(), all.len() as int));
        }
        assert(all.subrange(0, all.len() as int) =~= all);
        self.is_changed = true;
    }

    /// Replaces the point at `index`; marks the points as changed.
    pub fn update(&mut self, index: usize, xy: T)
        requires
            index < old(self).points().len(),
        ensures
            final(self).points() == old(self).points().update(index as int, xy),
            final(self).length() == old(self).length(),
            final(self).changed(),
    {
        self.xy.set(index, xy);
        self.is_changed = true;
    }

    /// Returns the point at `index`.
    pub fn get(&self, index: usize) -> (res: T)
        requires
            index < self.points().len(),
        ensures
            res == self.points()[index as int],
    {
        self.xy[index]
    }

    /// Returns the points, oldest first, and marks them as read.
    pub fn xy(&mut self) -> (res: Vec<T>)
        ensures
            res@ == old(self).points(),
            final(self).points() == old(self).points(),
            final(self).length() == old(self).length(),
            !final(self).changed(),
    {
        self.is_changed = false;
        let mut res: Vec<T> = Vec::new();
        let mut i: usize = 0;
        while i < self.xy.len()
            invariant
                i <= self.xy.len(),
                res@ == self.xy@.take(i as int),
            decreases self.xy.len() - i,
        {
            res.push(self.xy[i]);
            i = i + 1;
            assert(res@ =~= self.xy@.take(i as int));
        }
        assert(res@ =~= self.xy@);
        res
    }

    /// Returns the number of points held.
    pub fn len(&self) -> (res: usize)
        ensures
            res == self.points().len(),
    {
        self.xy.len()
    }

    /// Sets the number of points kept from now on; the points held stay until
    /// the next point is added.
    pub fn set_len(&mut self, length: usize)
        ensures
            final(self).length() == length,
            final(self).points() == old(self).points(),
            final(self).changed() == old(self).changed(),
    {
        self.length = length;
    }

    /// Removes all points and marks them as changed.
    pub fn clear(&mut self)
        ensures
            final(self).points() == Seq::<T>::empty(),
            final(self).length() == old(self).length(),
            final(self).changed(),
    {
        self.xy.clear();
        self.is_changed = true;
    }
}

} // verus!
