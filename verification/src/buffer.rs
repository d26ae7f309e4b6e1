//! A ring of fixed capacity that can only be pushed to, and that hands back
//! the oldest item once it is full.

use vstd::prelude::*;

verus! {

/// What a ring of `capacity` slots holding `window`, oldest item first,
/// holds after `item` is pushed.
pub open spec fn window_push<T>(capacity: nat, window: Seq<T>, item: T) -> Seq<T> {
    if window.len() < capacity {
        window.push(item)
    } else {
        window.drop_first().push(item)
    }
}

/// The item that the next push drops from `window`: none while there is
/// room, the oldest item after that.
pub open spec fn window_evicted<T>(capacity: nat, window: Seq<T>) -> Option<T> {
    if window.len() < capacity {
        None
    } else {
        Some(window.first())
    }
}

/// The window of a ring of `capacity` slots into which `items` were pushed,
/// first to last, starting from an empty ring.
pub open spec fn window_after<T>(capacity: nat, items: Seq<T>) -> Seq<T>
    decreases items.len(),
{
    if items.len() == 0 {
        Seq::empty()
    } else {
        window_push(capacity, window_after(capacity, items.drop_last()), items.last())
    }
}

/// The last `capacity` items of `items`, or all of them where there are fewer.
pub open spec fn latest<T>(capacity: nat, items: Seq<T>) -> Seq<T> {
    if items.len() <= capacity {
        items
    } else {
        items.subrange(items.len() - capacity, items.len() as int)
    }
}

/// Pushing any number of items into an empty ring leaves exactly the latest
/// `capacity` of them, in the order in which they were pushed.
pub proof fn lemma_window_keeps_latest<T>(capacity: nat, items: Seq<T>)
    requires
        capacity > 0,
    ensures
        window_after(capacity, items) == latest(capacity, items),
    decreases items.len(),
{
    if items.len() > 0 {
        let front = items.drop_last();
        lemma_window_keeps_latest(capacity, front);
        assert(window_after(capacity, items) =~= latest(capacity, items));
    }
}

/// The push at position `i` of a run of pushes into an empty ring drops
/// nothing while `i < capacity`, and after that the item pushed `capacity`
/// pushes earlier.
pub proof fn lemma_push_evicts_earlier<T>(capacity: nat, items: Seq<T>, i: int)
    requires
        capacity > 0,
        0 <= i < items.len(),
    ensures
        window_evicted(capacity, window_after(capacity, items.take(i))) == if i < capacity {
            None
        } else {
            Some(items[i - capacity])
        },
{
    lemma_window_keeps_latest(capacity, items.take(i));
}

/// The slot that position `x` falls on when it runs at most once past the
/// last of `slots` slots.
spec fn turn(x: int, slots: int) -> int {
    if x < slots {
        x
    } else {
        x - slots
    }
}

/// One step forward on a ring of `slots` slots.
proof fn lemma_mod_step(x: int, slots: int)
    requires
        0 <= x,
        0 < slots,
    ensures
        0 <= x % slots < slots,
        (x + 1) % slots == turn(x % slots + 1, slots),
{
    assert(0 <= x % slots < slots && (x + 1) % slots == turn(x % slots + 1, slots))
        by (nonlinear_arith)
        requires
            0 <= x,
            0 < slots,
    ;
}

/// A ring buffer. It counts every push, also those that overwrite.
#[derive(Clone)]
pub struct CircleBuffer<T> {
    data: Vec<T>,
    capacity: usize,
    cursor: usize,
}

impl<T> View for CircleBuffer<T> {
    type V = Seq<T>;

    /// The items held, oldest first.
    closed spec fn view(&self) -> Seq<T> {
        Seq::new(self.data@.len(), |i: int| self.data@[turn(self.oldest() + i, self.capacity as int)])
    }
}

impl<T> CircleBuffer<T> {
    /// The slot of the oldest item.
    spec fn oldest(&self) -> int {
        if self.cursor < self.capacity {
            0
        } else {
            (self.cursor as int) % (self.capacity as int)
        }
    }

    /// The invariant: the capacity is positive, and the ring holds as many
    /// items as were pushed, up to its capacity.
    pub closed spec fn wf(&self) -> bool {
        &&& self.capacity > 0
        &&& self.data@.len() == if self.cursor < self.capacity {
            self.cursor
        } else {
            self.capacity
        }
    }

    /// The number of slots.
    pub closed spec fn capacity(&self) -> usize {
        self.capacity
    }

    /// The number of pushes so far. It is not capped at the capacity.
    pub closed spec fn spec_len(&self) -> usize {
        self.cursor
    }

    /// A well-formed ring holds the smaller of its capacity and its pushes.
    pub proof fn lemma_window_len(&self)
        requires
            self.wf(),
        ensures
            self.capacity() > 0,
            self@.len() == if self.spec_len() < self.capacity() {
                self.spec_len()
            } else {
                self.capacity()
            },
    {
    }

    /// An empty ring of `capacity` slots.
    pub fn new(capacity: usize) -> (buffer: Self)
        requires
            capacity > 0,
        ensures
            buffer.wf(),
            buffer.capacity() == capacity,
            buffer.spec_len() == 0,
            buffer@ == Seq::<T>::empty(),
    {
        let buffer = CircleBuffer { data: Vec::new(), capacity, cursor: 0 };
        assert(buffer@ =~= Seq::<T>::empty());
        buffer
    }

    /// Pushes `item`. Once the ring is full the oldest item makes room and
    /// is handed back.
    pub fn push(&mut self, item: T) -> (evicted: Option<T>)
        requires
            old(self).wf(),
            old(self).spec_len() < usize::MAX,
        ensures
            final(self).wf(),
            final(self).capacity() == old(self).capacity(),
            final(self).spec_len() == old(self).spec_len() + 1,
            final(self)@ == window_push(old(self).capacity() as nat, old(self)@, item),
            evicted == window_evicted(old(self).capacity() as nat, old(self)@),
    {
        let ghost before = *self;
        self.cursor += 1;
        if self.data.len() < self.capacity {
            self.data.push(item);
            proof {
                let slots = self.capacity as int;
                assert(slots % slots == 0) by (nonlinear_arith)
                    requires
                        0 < slots,
                ;
                assert(self@ =~= before@.push(item));
            }
            None
        } else {
            let oldest_idx = (self.cursor - 1) % self.capacity;
            let mut held = item;
            std::mem::swap(&mut self.data[oldest_idx], &mut held);
            proof {
                lemma_mod_step(before.cursor as int, self.capacity as int);
                assert(self@ =~= before@.drop_first().push(item));
            }
            Some(held)
        }
    }

    /// The number of pushes so far.
    #[verifier::when_used_as_spec(spec_len)]
    pub fn len(&self) -> (n: usize)
        ensures
            n == self.spec_len(),
    {
        self.cursor
    }
}

} // verus!
