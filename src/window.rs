//! Fixed-capacity rolling window that behaves as a FIFO once full.
use vstd::prelude::*;

verus! {

/// The window after `v` is appended to contents `s` under capacity `cap`:
/// when the window is already full the oldest value leaves first.
pub open spec fn window_push<T>(s: Seq<T>, v: T, cap: nat) -> Seq<T> {
    if s.len() >= cap {
        s.subrange(1, s.len() as int).push(v)
    } else {
        s.push(v)
    }
}

/// The window after each value of `xs` is appended in turn.
pub open spec fn window_push_all<T>(s: Seq<T>, xs: Seq<T>, cap: nat) -> Seq<T>
    decreases xs.len(),
{
    if xs.len() == 0 {
        s
    } else {
        window_push(window_push_all(s, xs.drop_last(), cap), xs.last(), cap)
    }
}

/// The last `min(|s|, cap)` values of `s`, in order.
pub open spec fn last_values<T>(s: Seq<T>, cap: nat) -> Seq<T> {
    if s.len() <= cap {
        s
    } else {
        s.subrange(s.len() - cap, s.len() as int)
    }
}

/// A bounded sequence of recent observations.
#[derive(Debug, Clone)]
pub struct RollingWindow<T> {
    data: Vec<T>,
    capacity: usize,
}

impl<T> View for RollingWindow<T> {
    type V = Seq<T>;

    closed spec fn view(&self) -> Seq<T> {
        self.data@
    }
}

impl<T> RollingWindow<T> {
    /// The capacity fixed at construction.
    pub closed spec fn cap(&self) -> nat {
        self.capacity as nat
    }

    /// A positive capacity, never exceeded by the contents.
    pub closed spec fn wf(&self) -> bool {
        &&& self.capacity > 0
        &&& self.data@.len() <= self.capacity
    }

    pub fn new(capacity: usize) -> (r: RollingWindow<T>)
        requires
            capacity > 0,
        ensures
            r.wf(),
            r@ == Seq::<T>::empty(),
            r.cap() == capacity,
    {
        RollingWindow { data: Vec::new(), capacity }
    }

    /// Appends `value`, dropping the oldest value first when the window is full.
    pub fn push(&mut self, value: T)
        requires
            old(self).wf(),
        ensures
            final(self).wf(),
            final(self).cap() == old(self).cap(),
            final(self)@ == window_push(old(self)@, value, old(self).cap()),
    {
        let ghost before = self.data@;
        if self.data.len() >= self.capacity {
            self.data.remove(0);
            assert(self.data@ =~= before.subrange(1, before.len() as int));
        }
        self.data.push(value);
    }

    /// The contents, oldest first.
    pub fn data(&self) -> (r: &[T])
        ensures
            r@ == self@,
    {
        self.data.as_slice()
    }

    pub fn capacity(&self) -> (r: usize)
        ensures
            r == self.cap(),
    {
        self.capacity
    }

    pub fn is_full(&self) -> (r: bool)
        ensures
            r == (self@.len() >= self.cap()),
    {
        self.data.len() >= self.capacity
    }

    pub fn len(&self) -> (r: usize)
        ensures
            r == self@.len(),
    {
        self.data.len()
    }

    pub fn is_empty(&self) -> (r: bool)
        ensures
            r == (self@.len() == 0),
    {
        self.data.len() == 0
    }

    /// Removes every value; the capacity stays.
    pub fn clear(&mut self)
        requires
            old(self).wf(),
        ensures
            final(self).wf(),
            final(self).cap() == old(self).cap(),
            final(self)@ == Seq::<T>::empty(),
    {
        self.data.clear();
    }
}

/// A window never holds more values than its capacity, whatever was pushed.
pub proof fn lemma_window_bound<T>(xs: Seq<T>, cap: nat)
    requires
        cap > 0,
    ensures
        window_push_all(Seq::<T>::empty(), xs, cap).len() <= cap,
{
    lemma_window_fifo(xs, cap);
}

/// Pushing `xs` into an empty window of capacity `cap` leaves exactly the last
/// `min(|xs|, cap)` values of `xs`, in the order they were pushed.
pub proof fn lemma_window_fifo<T>(xs: Seq<T>, cap: nat)
    requires
        cap > 0,
    ensures
        window_push_all(Seq::<T>::empty(), xs, cap) == last_values(xs, cap),
    decreases xs.len(),
{
    if xs.len() > 0 {
        let init = xs.drop_last();
        lemma_window_fifo(init, cap);
        let w = last_values(init, cap);
        if init.len() < cap {
            assert(w.push(xs.last()) =~= xs);
        } else {
            assert(w.subrange(1, w.len() as int).push(xs.last()) =~= xs.subrange(
                xs.len() - cap,
                xs.len() as int,
            ));
        }
    } else {
        assert(window_push_all(Seq::<T>::empty(), xs, cap) =~= xs);
    }
}

} // verus!
