use vstd::prelude::*;

verus! {

/// The contents after one arrival: the newest item goes to the back, and the
/// oldest one leaves first when the buffer already holds `capacity` items.
pub open spec fn pushed<T>(s: Seq<T>, capacity: nat, item: T) -> Seq<T> {
    if s.len() >= capacity {
        s.drop_first().push(item)
    } else {
        s.push(item)
    }
}

/// The contents after `items` arrived, in order, at an empty buffer.
pub open spec fn filled<T>(capacity: nat, items: Seq<T>) -> Seq<T>
    decreases items.len(),
{
    if items.len() == 0 {
        Seq::empty()
    } else {
        pushed(filled(capacity, items.drop_last()), capacity, items.last())
    }
}

/// The most recent `capacity` items of `items`, oldest first.
pub open spec fn last_n<T>(capacity: nat, items: Seq<T>) -> Seq<T> {
    if items.len() <= capacity {
        items
    } else {
        items.subrange(items.len() - capacity, items.len() as int)
    }
}

/// A fixed-capacity, insertion-ordered buffer that evicts its oldest entry
/// when a new one arrives at capacity.
pub struct BoundedFifo<T> {
    items: std::collections::VecDeque<T>,
    capacity: usize,
}

impl<T> View for BoundedFifo<T> {
    type V = Seq<T>;

    closed spec fn view(&self) -> Seq<T> {
        self.items@
    }
}

impl<T> BoundedFifo<T> {
    pub closed spec fn spec_capacity(&self) -> nat {
        self.capacity as nat
    }

    pub closed spec fn wf(&self) -> bool {
        &&& self.capacity >= 1
        &&& self.items@.len() <= self.capacity
    }

    pub proof fn lemma_bounds(&self)
        requires
            self.wf(),
        ensures
            self.spec_capacity() >= 1,
            self@.len() <= self.spec_capacity(),
    {
    }

    pub fn new(capacity: usize) -> (r: Self)
        requires
            capacity >= 1,
        ensures
            r.wf(),
            r@ == Seq::<T>::empty(),
            r.spec_capacity() == capacity,
    {
        BoundedFifo { items: std::collections::VecDeque::with_capacity(capacity), capacity }
    }

    pub fn capacity(&self) -> (r: usize)
        ensures
            r == self.spec_capacity(),
    {
        self.capacity
    }

    pub fn len(&self) -> (r: usize)
        requires
            self.wf(),
        ensures
            r == self@.len(),
            r <= self.spec_capacity(),
    {
        self.items.len()
    }

    pub fn get(&self, i: usize) -> (r: &T)
        requires
            i < self@.len(),
        ensures
            *r == self@[i as int],
    {
        &self.items[i]
    }

    /// Appends `item`, evicting the oldest entry first when the buffer is full.
    pub fn push(&mut self, item: T)
        requires
            old(self).wf(),
        ensures
            final(self).wf(),
            final(self).spec_capacity() == old(self).spec_capacity(),
            final(self)@ == pushed(old(self)@, old(self).spec_capacity(), item),
    {
        if self.items.len() >= self.capacity {
            let _ = self.items.pop_front();
        }
        self.items.push_back(item);
    }
}

/// Whatever arrives at an empty buffer, it ends up holding exactly the most
/// recent `capacity` arrivals (all of them while there are fewer), oldest first.
pub proof fn lemma_fifo_keeps_latest<T>(capacity: nat, items: Seq<T>)
    requires
        capacity >= 1,
    ensures
        filled(capacity, items) == last_n(capacity, items),
        items.len() >= capacity ==> filled(capacity, items).len() == capacity,
    decreases items.len(),
{
    if items.len() > 0 {
        let prev = items.drop_last();
        lemma_fifo_keeps_latest(capacity, prev);
        let p = filled(capacity, prev);
        if prev.len() >= capacity {
            assert(p.drop_first().push(items.last()) =~= last_n(capacity, items));
        } else {
            assert(p.push(items.last()) =~= last_n(capacity, items));
        }
    }
}

} // verus!
