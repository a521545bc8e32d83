//! Fixed-capacity, insertion-ordered trend store.
//!
//! A `HistoryBuffer` keeps the most recent values pushed into it, in
//! chronological order (oldest first). Once the configured capacity is
//! reached, each push evicts the oldest element, so the buffer always
//! holds a sliding window over the stream of pushed values.

use vstd::prelude::*;

verus! {

/// What one push does to the stored sequence: append if there is room,
/// otherwise drop the oldest element (index 0) and then append.
pub open spec fn push_model<T>(s: Seq<T>, cap: nat, v: T) -> Seq<T> {
    if s.len() < cap {
        s.push(v)
    } else {
        s.subrange(1, s.len() as int).push(v)
    }
}

/// The sequence held after pushing every element of `vs`, in order,
/// into an empty buffer of capacity `cap`.
pub open spec fn history_after<T>(cap: nat, vs: Seq<T>) -> Seq<T>
    decreases vs.len(),
{
    if vs.len() == 0 {
        Seq::empty()
    } else {
        push_model(history_after(cap, vs.drop_last()), cap, vs.last())
    }
}

/// Bounded trend store: at most `cap` values, oldest first.
pub struct HistoryBuffer<T> {
    items: Vec<T>,
    cap: usize,
}

impl<T> View for HistoryBuffer<T> {
    type V = Seq<T>;

    closed spec fn view(&self) -> Seq<T> {
        self.items@
    }
}

impl<T> HistoryBuffer<T> {
    /// The capacity fixed at construction.
    pub closed spec fn cap(&self) -> nat {
        self.cap as nat
    }

    /// The buffer never holds more than its capacity, and a capacity
    /// of zero is ruled out at construction.
    pub open spec fn wf(&self) -> bool {
        self@.len() <= self.cap() && self.cap() >= 1
    }

    /// Creates an empty buffer with the given capacity; the capacity
    /// cannot be changed afterwards.
    pub fn new(capacity: usize) -> (b: HistoryBuffer<T>)
        requires
            capacity >= 1,
        ensures
            b.wf(),
            b.cap() == capacity,
            b@ == Seq::<T>::empty(),
    {
        HistoryBuffer { items: Vec::new(), cap: capacity }
    }

    /// Appends `value`; if the buffer is full, the oldest element is
    /// evicted first, so insertion order is preserved and the length
    /// never exceeds the capacity.
    pub fn push(&mut self, value: T)
        requires
            old(self).wf(),
        ensures
            final(self).wf(),
            final(self).cap() == old(self).cap(),
            final(self)@ == push_model(old(self)@, old(self).cap(), value),
            final(self)@.len() <= old(self).cap(),
    {
        if self.items.len() == self.cap {
            self.items.remove(0);
            proof {
                assert(self.items@ =~= old(self)@.subrange(1, old(self)@.len() as int));
            }
        }
        self.items.push(value);
    }

    /// Read-only chronological view of the stored values for rendering.
    pub fn snapshot(&self) -> (s: &Vec<T>)
        ensures
            s@ == self@,
    {
        &self.items
    }

    /// Number of values currently stored.
    pub fn len(&self) -> (n: usize)
        ensures
            n == self@.len(),
    {
        self.items.len()
    }
}

/// Capacity invariant: however many values have been pushed, the buffer
/// holds exactly the youngest `cap` of them once more than `cap` were
/// pushed, and all of them before that. In particular its length never
/// exceeds `cap`.
pub proof fn lemma_history_window<T>(cap: nat, vs: Seq<T>)
    requires
        cap >= 1,
    ensures
        history_after(cap, vs).len() <= cap,
        vs.len() <= cap ==> history_after(cap, vs) == vs,
        vs.len() >= cap ==> history_after(cap, vs) == vs.subrange(
            vs.len() - cap,
            vs.len() as int,
        ),
    decreases vs.len(),
{
    if vs.len() == 0 {
        assert(history_after(cap, vs) =~= vs);
    } else {
        let prev = vs.drop_last();
        lemma_history_window(cap, prev);
        if vs.len() <= cap {
            assert(history_after(cap, vs) =~= vs);
        } else {
            assert(history_after(cap, vs) =~= vs.subrange(vs.len() - cap, vs.len() as int));
        }
    }
}

} // verus!
