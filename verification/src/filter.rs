//! Filters that hold the values worth passing on: a bounded queue of the
//! accepted values, oldest first, and the last accepted value.
use vstd::prelude::*;
use vstd::laws_eq::obeys_concrete_eq;

verus! {

/// The queue after `value` is appended to `queue` in a buffer of `capacity`
/// places: when the buffer is full the oldest value is dropped; a buffer
/// without places keeps nothing.
pub open spec fn push_bounded<T>(queue: Seq<T>, value: T, capacity: nat) -> Seq<T> {
    if capacity == 0 {
        queue
    } else if queue.len() < capacity {
        queue.push(value)
    } else {
        queue.push(value).drop_first()
    }
}

/// No two neighbouring values of `queue` are equal.
pub open spec fn distinct_neighbours<T>(queue: Seq<T>) -> bool {
    forall|i: int| 0 <= i < queue.len() - 1 ==> #[trigger] queue[i] != queue[i + 1]
}

/// The filter's state after `value` is offered to a filter of `capacity`
/// places that holds `items` and whose last accepted value is `last`: a value
/// equal to the last accepted one is refused and leaves the values as they
/// are; any other is appended and becomes the last value. The third part
/// tells whether the value was accepted.
pub open spec fn add_step<T>(items: Seq<T>, last: Option<T>, value: T, capacity: nat) -> (
    Seq<T>,
    Option<T>,
    bool,
) {
    if last == Some(value) {
        (items, last, false)
    } else {
        (push_bounded(items, value, capacity), Some(value), true)
    }
}

/// The state of a filter of `capacity` places created with `initial`.
pub open spec fn initial_state<T>(initial: Option<T>, capacity: nat) -> (Seq<T>, Option<T>, bool) {
    match initial {
        Some(v) => (push_bounded(Seq::<T>::empty(), v, capacity), initial, true),
        None => (Seq::<T>::empty(), None, false),
    }
}

/// The state of a filter of `capacity` places created with `initial` after
/// the values `adds` are offered in turn, with no pop between.
pub open spec fn run_adds<T>(initial: Option<T>, adds: Seq<T>, capacity: nat) -> (
    Seq<T>,
    Option<T>,
    bool,
)
    decreases adds.len(),
{
    if adds.len() == 0 {
        initial_state(initial, capacity)
    } else {
        let s = run_adds(initial, adds.drop_last(), capacity);
        add_step(s.0, s.1, adds.last(), capacity)
    }
}

/// The values accepted from `initial` and `adds`: the initial value, then
/// each offered value that differs from the value accepted just before it.
pub open spec fn accepted<T>(initial: Option<T>, adds: Seq<T>) -> Seq<T>
    decreases adds.len(),
{
    if adds.len() == 0 {
        match initial {
            Some(v) => seq![v],
            None => Seq::<T>::empty(),
        }
    } else {
        let s = accepted(initial, adds.drop_last());
        if s.len() > 0 && s.last() == adds.last() {
            s
        } else {
            s.push(adds.last())
        }
    }
}

/// `items` with its oldest elements dropped until at most `length` remain.
pub open spec fn newest<T>(items: Seq<T>, length: nat) -> Seq<T> {
    if items.len() > length {
        items.subrange(items.len() - length, items.len() as int)
    } else {
        items
    }
}

proof fn lemma_push_bounded_newest<T>(s: Seq<T>, v: T, capacity: nat)
    ensures
        push_bounded(newest(s, capacity), v, capacity) == newest(s.push(v), capacity),
{
    if capacity > 0 {
        if s.len() >= capacity {
            assert(push_bounded(newest(s, capacity), v, capacity) =~= newest(s.push(v), capacity));
        } else {
            assert(push_bounded(newest(s, capacity), v, capacity) =~= newest(s.push(v), capacity));
        }
    } else {
        assert(newest(s, 0) =~= Seq::<T>::empty());
        assert(newest(s.push(v), 0) =~= Seq::<T>::empty());
    }
}

/// Offering values to a new filter, with no pop between, leaves in it the
/// newest `capacity` accepted values, oldest first, so that successive pops
/// return them in that order; its last value is the last accepted one.
pub proof fn lemma_adds_then_pops<T>(initial: Option<T>, adds: Seq<T>, capacity: nat)
    ensures
        ({
            let s = accepted(initial, adds);
            let state = run_adds(initial, adds, capacity);
            &&& state.0 == newest(s, capacity)
            &&& state.1 == if s.len() > 0 {
                Some(s.last())
            } else {
                None::<T>
            }
        }),
    decreases adds.len(),
{
    if adds.len() == 0 {
        match initial {
            Some(v) => {
                lemma_push_bounded_newest(Seq::<T>::empty(), v, capacity);
                assert(Seq::<T>::empty().push(v) =~= seq![v]);
                assert(newest(Seq::<T>::empty(), capacity) =~= Seq::<T>::empty());
            },
            None => {
                assert(newest(Seq::<T>::empty(), capacity) =~= Seq::<T>::empty());
            },
        }
    } else {
        lemma_adds_then_pops(initial, adds.drop_last(), capacity);
        let s = accepted(initial, adds.drop_last());
        lemma_push_bounded_newest(s, adds.last(), capacity);
    }
}

/// Holds the values accepted by the filter
/// - call `add(value)` to offer a new value; it updates the state only if
///   the value differs from the held one
/// - `pop()` removes the oldest accepted value
/// - `is_changed()` tells whether the last `add()` changed the state
pub trait Filter {
    type Item;

    /// Removes and returns the oldest accepted value.
    fn pop(&mut self) -> Option<Self::Item>;

    /// Offers a new value to the filter: it is accepted only if it differs
    /// from the held value.
    fn add(&mut self, value: Self::Item);

    /// Returns the last accepted value, if any.
    fn last(&self) -> Option<Self::Item>;

    /// Returns true if the last `add` was accepted and changed the held value.
    fn is_changed(&self) -> bool;
}

/// Passes input values as they are, skipping a value equal to the last
/// accepted one; keeps the accepted values in a buffer of `N` places.
#[derive(Debug)]
pub struct FilterEmpty<const N: usize, T> {
    buffer: Vec<T>,
    last: Option<T>,
    changed: bool,
}

impl<const N: usize, T> FilterEmpty<N, T> {
    /// The buffer never holds more than `N` values, and its newest value is
    /// the last accepted one.
    #[verifier::type_invariant]
    spec fn wf(&self) -> bool {
        &&& self.buffer.len() <= N
        &&& self.buffer.len() > 0 ==> self.last == Some(self.buffer@.last())
    }
}

impl<const N: usize, T: Copy> FilterEmpty<N, T> {
    /// The values in the buffer, oldest first.
    pub closed spec fn items(&self) -> Seq<T> {
        self.buffer@
    }

    /// The last accepted value, if any.
    pub closed spec fn last_value(&self) -> Option<T> {
        self.last
    }

    /// Whether the last offered value (or, before any, the initial one) was accepted.
    pub closed spec fn changed_flag(&self) -> bool {
        self.changed
    }

    /// The whole state: values, last value, changed flag.
    pub open spec fn state(&self) -> (Seq<T>, Option<T>, bool) {
        (self.items(), self.last_value(), self.changed_flag())
    }

    /// Creates a filter whose buffer holds `initial`, if given (and if `N > 0`).
    pub fn new(initial: Option<T>) -> (res: Self)
        ensures
            res.state() == initial_state(initial, N as nat),
    {
        let mut buffer: Vec<T> = Vec::new();
        match initial {
            Some(v) => {
                if N > 0 {
                    buffer.push(v);
                }
                assert(buffer@ =~= push_bounded(Seq::<T>::empty(), v, N as nat));
                FilterEmpty { buffer, last: initial, changed: true }
            },
            None => FilterEmpty { buffer, last: None, changed: false },
        }
    }

    /// Accepts `value`: appends it to the buffer, dropping the oldest value
    /// when it is full, and makes it the last value.
    fn accept(&mut self, value: T)
        ensures
            final(self).items() == push_bounded(old(self).items(), value, N as nat),
            final(self).last_value() == Some(value),
            final(self).changed_flag(),
    {
        proof {
            use_type_invariant(&*self);
        }
        let mut buffer: Vec<T> = Vec::new();
        std::mem::swap(&mut buffer, &mut self.buffer);
        if N == 0 {
        } else if buffer.len() >= N {
            buffer.remove(0);
            buffer.push(value);
            assert(buffer@ =~= old(self).buffer@.push(value).drop_first());
        } else {
            buffer.push(value);
        }
        self.last = Some(value);
        self.buffer = buffer;
        self.changed = true;
    }
}

impl<const N: usize, T: Copy> Clone for FilterEmpty<N, T> {
    /// A filter in the same state.
    fn clone(&self) -> (res: Self)
        ensures
            res.state() == self.state(),
    {
        proof {
            use_type_invariant(self);
        }
        let mut buffer: Vec<T> = Vec::new();
        let mut i: usize = 0;
        while i < self.buffer.len()
            invariant
                i <= self.buffer.len() <= N,
                buffer@ == self.buffer@.take(i as int),
            decreases self.buffer.len() - i,
        {
            buffer.push(self.buffer[i]);
            i = i + 1;
            assert(buffer@ =~= self.buffer@.take(i as int));
        }
        assert(buffer@ =~= self.buffer@);
        FilterEmpty { buffer, last: self.last, changed: self.changed }
    }
}

impl<const N: usize, T: Copy + PartialEq> Filter for FilterEmpty<N, T> {
    type Item = T;

    /// Removes and returns the oldest value in the buffer; popping keeps
    /// neighbouring values distinct and leaves the last value and the changed flag.
    fn pop(&mut self) -> (res: Option<T>)
        ensures
            old(self).items().len() == 0 ==> res is None && final(self).items() == old(self).items(),
            old(self).items().len() > 0 ==> res == Some(old(self).items()[0])
                && final(self).items() == old(self).items().drop_first(),
            final(self).last_value() == old(self).last_value(),
            final(self).changed_flag() == old(self).changed_flag(),
            distinct_neighbours(old(self).items()) ==> distinct_neighbours(final(self).items()),
    {
        proof {
            use_type_invariant(&*self);
        }
        if self.buffer.len() == 0 {
            None
        } else {
            let mut buffer: Vec<T> = Vec::new();
            std::mem::swap(&mut buffer, &mut self.buffer);
            let front = buffer.remove(0);
            self.buffer = buffer;
            Some(front)
        }
    }

    /// Accepts `value` unless it equals the last accepted value; an accepted
    /// value is appended to the buffer and becomes the last value.
    ///
    /// So the buffer never holds two equal neighbouring values.
    fn add(&mut self, value: T)
        ensures
            final(self).state() == (old(self).items(), old(self).last_value(), false)
                || final(self).state() == (
                push_bounded(old(self).items(), value, N as nat),
                Some(value),
                true,
            ),
            obeys_concrete_eq::<T>() ==> final(self).state() == add_step(
                old(self).items(),
                old(self).last_value(),
                value,
                N as nat,
            ),
            obeys_concrete_eq::<T>() && distinct_neighbours(old(self).items())
                ==> distinct_neighbours(final(self).items()),
    {
        proof {
            use_type_invariant(&*self);
            if obeys_concrete_eq::<T>() {
                reveal(obeys_concrete_eq);
            }
        }
        let differs = match self.last {
            Some(held) => value != held,
            None => true,
        };
        if differs {
            self.accept(value);
        } else {
            self.changed = false;
        }
    }

    fn last(&self) -> (res: Option<T>)
        ensures
            res == self.last_value(),
    {
        self.last
    }

    fn is_changed(&self) -> (res: bool)
        ensures
            res == self.changed_flag(),
    {
        self.changed
    }
}

} // verus!
