//! Bounded first-in first-out queues with power-of-two capacity and bitmask indexing.

use crate::error::LoggingError;
use vstd::prelude::*;
use vstd::string::*;

verus! {

/// A capacity that a ring buffer accepts: a power of two, hence not zero.
pub open spec fn power_of_two(c: usize) -> bool {
    c != 0 && c & ((c - 1) as usize) == 0
}

/// True when `c` is a power of two.
pub fn is_power_of_two(c: usize) -> (r: bool)
    ensures
        r == power_of_two(c),
{
    c != 0 && (c & (c - 1)) == 0
}

/// The slot that follows the last one is the first one.
pub open spec fn wrap(x: int, capacity: int) -> int {
    if x < capacity {
        x
    } else {
        x - capacity
    }
}

/// The number of slots between `head` and slot `i`, walking forward around the ring.
pub open spec fn distance(head: int, i: int, capacity: int) -> int {
    if i >= head {
        i - head
    } else {
        i + capacity - head
    }
}

/// A queue of at most `capacity` items after `item` is offered to it: the item goes to the
/// end when there is room, and is refused otherwise.
pub open spec fn offer<T>(queue: Seq<T>, capacity: nat, item: T) -> Seq<T> {
    if queue.len() < capacity {
        queue.push(item)
    } else {
        queue
    }
}

/// The queue after each of `items` is offered in turn and nothing is taken out.
pub open spec fn offer_all<T>(queue: Seq<T>, capacity: nat, items: Seq<T>) -> Seq<T>
    decreases items.len(),
{
    if items.len() == 0 {
        queue
    } else {
        offer(offer_all(queue, capacity, items.drop_last()), capacity, items.last())
    }
}

/// With a consumer that takes nothing, an empty queue accepts exactly the first `capacity`
/// items offered to it, in the order in which they came, and refuses every later one.
pub proof fn lemma_first_refusal_after_capacity<T>(capacity: nat, items: Seq<T>)
    ensures
        offer_all(Seq::<T>::empty(), capacity, items) == items.take(
            if items.len() <= capacity {
                items.len() as int
            } else {
                capacity as int
            },
        ),
    decreases items.len(),
{
    if items.len() == 0 {
        assert(items.take(0) =~= Seq::<T>::empty());
    } else {
        let front = items.drop_last();
        lemma_first_refusal_after_capacity(capacity, front);
        if items.len() <= capacity {
            assert(front.take(front.len() as int) =~= front);
            assert(items.take(items.len() as int) =~= front.push(items.last()));
        } else if front.len() <= capacity {
            assert(front.take(front.len() as int) =~= items.take(capacity as int));
        } else {
            assert(front.take(capacity as int) =~= items.take(capacity as int));
        }
    }
}

proof fn lemma_mask_bound(p: usize, c: usize)
    requires
        power_of_two(c),
    ensures
        (p & ((c - 1) as usize)) < c,
{
    assert(c != 0 && c & ((c - 1) as usize) == 0 ==> (p & ((c - 1) as usize)) < c)
        by (bit_vector);
}

proof fn lemma_mask_zero(c: usize)
    requires
        power_of_two(c),
    ensures
        (0usize & ((c - 1) as usize)) == 0,
{
    assert((0usize & ((c - 1) as usize)) == 0) by (bit_vector);
}

proof fn lemma_mask_step(p: usize, q: usize, c: usize)
    requires
        power_of_two(c),
        q == p.wrapping_add(1),
    ensures
        (q & ((c - 1) as usize)) == wrap((p & ((c - 1) as usize)) + 1, c as int),
{
    let m = (c - 1) as usize;
    let top = usize::MAX;
    assert(top <= !0usize) by (bit_vector);
    assert(p == usize::MAX ==> q == 0);
    assert(p != usize::MAX ==> q == p + 1);
    assert(c != 0 && c & ((c - 1) as usize) == 0 && m == (c - 1) as usize && ((q == 0 && p
        == !0usize) || q == p + 1) ==> (q & m) == (if (p & m) == m {
        0usize
    } else {
        ((p & m) + 1) as usize
    })) by (bit_vector);
    lemma_mask_bound(p, c);
}

/// A bounded queue for one producer and one consumer. Slots are addressed by two cursors
/// that only grow; a cursor's slot is its value masked by `capacity - 1`.
pub struct RingBuffer<T> {
    buffer: Vec<Option<T>>,
    capacity: usize,
    write_pos: usize,
    read_pos: usize,
    mask: usize,
}

impl<T> View for RingBuffer<T> {
    type V = Seq<T>;

    /// The queued items, oldest first.
    closed spec fn view(&self) -> Seq<T> {
        Seq::new(
            self.write_pos.wrapping_sub(self.read_pos) as nat,
            |k: int| self.buffer@[wrap((self.read_pos & self.mask) + k, self.capacity as int)]->0,
        )
    }
}

impl<T> RingBuffer<T> {
    /// The number of slots: fixed when the buffer is made.
    pub closed spec fn spec_capacity(&self) -> usize {
        self.capacity
    }

    /// What every method keeps true: the capacity is a power of two, at most `capacity`
    /// items are queued, and exactly the slots between the cursors are filled.
    pub closed spec fn wf(&self) -> bool {
        let head = (self.read_pos & self.mask) as int;
        let len = self.write_pos.wrapping_sub(self.read_pos) as int;
        &&& power_of_two(self.capacity)
        &&& self.mask == self.capacity - 1
        &&& self.buffer@.len() == self.capacity
        &&& len <= self.capacity
        &&& (self.write_pos & self.mask) == wrap(head + len, self.capacity as int)
        &&& forall|i: int|
            0 <= i < self.capacity ==> (#[trigger] self.buffer@[i] is Some <==> distance(
                head,
                i,
                self.capacity as int,
            ) < len)
    }

    /// An empty buffer of `capacity` slots. The capacity must be a power of two.
    pub fn new(capacity: usize) -> (r: Result<Self, LoggingError>)
        ensures
            r is Ok <==> power_of_two(capacity),
            r matches Ok(b) ==> b.wf() && b@ == Seq::<T>::empty() && b.spec_capacity()
                == capacity,
            r matches Err(e) ==> e is BufferError,
    {
        if !is_power_of_two(capacity) {
            return Err(
                LoggingError::BufferError(String::from_str("Capacity must be power of 2")),
            );
        }
        let mut buffer: Vec<Option<T>> = Vec::with_capacity(capacity);
        let mut i: usize = 0;
        while i < capacity
            invariant
                i <= capacity,
                buffer@.len() == i,
                forall|j: int| 0 <= j < i ==> #[trigger] buffer@[j] is None,
            decreases capacity - i,
        {
            buffer.push(None);
            i += 1;
        }
        let b = RingBuffer { buffer, capacity, write_pos: 0, read_pos: 0, mask: capacity - 1 };
        proof {
            lemma_mask_zero(capacity);
            assert(b@ =~= Seq::<T>::empty());
        }
        Ok(b)
    }

    /// Appends `item` unless the buffer is full. A full buffer is left as it was, and the
    /// caller is told at once.
    pub fn try_write(&mut self, item: T) -> (r: Result<(), LoggingError>)
        requires
            old(self).wf(),
        ensures
            final(self).wf(),
            final(self).spec_capacity() == old(self).spec_capacity(),
            r is Ok <==> old(self)@.len() < old(self).spec_capacity(),
            final(self)@ == offer(old(self)@, old(self).spec_capacity() as nat, item),
            r matches Err(e) ==> e is BufferError,
    {
        let write_pos = self.write_pos;
        let read_pos = self.read_pos;
        if write_pos.wrapping_sub(read_pos) >= self.capacity {
            return Err(LoggingError::BufferError(String::from_str("Buffer full")));
        }
        let index = write_pos & self.mask;
        proof {
            lemma_mask_bound(write_pos, self.capacity);
            lemma_mask_bound(read_pos, self.capacity);
            lemma_mask_step(write_pos, write_pos.wrapping_add(1), self.capacity);
        }
        let ghost before = *self;
        self.buffer[index] = Some(item);
        self.write_pos = write_pos.wrapping_add(1);
        proof {
            let head = (read_pos & self.mask) as int;
            let len = write_pos.wrapping_sub(read_pos) as int;
            assert(self.write_pos.wrapping_sub(read_pos) == len + 1);
            assert forall|i: int| 0 <= i < self.capacity implies (#[trigger] self.buffer@[i]
                is Some <==> distance(head, i, self.capacity as int) < len + 1) by {
                if i != index {
                    assert(self.buffer@[i] == before.buffer@[i]);
                }
            }
            assert(self@ =~= before@.push(item));
        }
        Ok(())
    }

    /// Takes the oldest item, if there is one.
    pub fn try_read(&mut self) -> (r: Option<T>)
        requires
            old(self).wf(),
        ensures
            final(self).wf(),
            final(self).spec_capacity() == old(self).spec_capacity(),
            r is Some <==> old(self)@.len() > 0,
            r matches Some(item) ==> item == old(self)@[0] && final(self)@ == old(self)@.skip(1),
            r is None ==> final(self)@ == old(self)@,
    {
        let read_pos = self.read_pos;
        let write_pos = self.write_pos;
        if read_pos == write_pos {
            return None;
        }
        let index = read_pos & self.mask;
        proof {
            lemma_mask_bound(write_pos, self.capacity);
            lemma_mask_bound(read_pos, self.capacity);
            lemma_mask_step(read_pos, read_pos.wrapping_add(1), self.capacity);
        }
        let ghost before = *self;
        let taken = self.buffer[index].take();
        self.read_pos = read_pos.wrapping_add(1);
        proof {
            let head = (read_pos & self.mask) as int;
            let next = (self.read_pos & self.mask) as int;
            let len = write_pos.wrapping_sub(read_pos) as int;
            assert(write_pos.wrapping_sub(self.read_pos) == len - 1);
            assert(before.buffer@[head] is Some);
            assert forall|i: int| 0 <= i < self.capacity implies (#[trigger] self.buffer@[i]
                is Some <==> distance(next, i, self.capacity as int) < len - 1) by {
                if i != index {
                    assert(self.buffer@[i] == before.buffer@[i]);
                }
            }
            assert(self@ =~= before@.skip(1));
        }
        taken
    }

    /// The number of queued items.
    pub fn len(&self) -> (r: usize)
        requires
            self.wf(),
        ensures
            r == self@.len(),
            r <= self.spec_capacity(),
    {
        self.write_pos.wrapping_sub(self.read_pos)
    }

    pub fn is_empty(&self) -> (r: bool)
        requires
            self.wf(),
        ensures
            r == (self@.len() == 0),
    {
        self.len() == 0
    }

    pub fn is_full(&self) -> (r: bool)
        requires
            self.wf(),
        ensures
            r == (self@.len() == self.spec_capacity()),
    {
        self.len() >= self.capacity
    }

    pub fn capacity(&self) -> (r: usize)
        ensures
            r == self.spec_capacity(),
    {
        self.capacity
    }

    /// Discards every queued item.
    pub fn clear(&mut self)
        requires
            old(self).wf(),
        ensures
            final(self).wf(),
            final(self).spec_capacity() == old(self).spec_capacity(),
            final(self)@ == Seq::<T>::empty(),
    {
        loop
            invariant
                self.wf(),
                self.spec_capacity() == old(self).spec_capacity(),
            ensures
                self@.len() == 0,
            decreases self@.len(),
        {
            let item = self.try_read();
            if item.is_none() {
                break ;
            }
        }
        assert(self@ =~= Seq::<T>::empty());
    }

    /// How full the buffer is, in whole percent.
    pub fn utilization_percent(&self) -> (r: u64)
        requires
            self.wf(),
        ensures
            r == (self@.len() * 100) / (self.spec_capacity() as nat),
            r <= 100,
    {
        let len = self.len() as u128;
        let cap = self.capacity as u128;
        assert((len * 100) / (cap as int) <= 100) by (nonlinear_arith)
            requires
                len <= cap,
                cap > 0,
        ;
        ((len * 100) / cap) as u64
    }
}

/// The ingest queue: many producers append, one consumer takes. A producer that finds the
/// queue full is refused at once and never waits.
pub struct MpscRingBuffer<T> {
    ring: RingBuffer<T>,
}

impl<T> View for MpscRingBuffer<T> {
    type V = Seq<T>;

    /// The queued items, oldest first.
    closed spec fn view(&self) -> Seq<T> {
        self.ring@
    }
}

impl<T> MpscRingBuffer<T> {
    /// The number of slots: fixed when the queue is made.
    pub closed spec fn spec_capacity(&self) -> usize {
        self.ring.spec_capacity()
    }

    /// What every method keeps true.
    pub closed spec fn wf(&self) -> bool {
        self.ring.wf()
    }

    /// An empty queue of `capacity` slots. The capacity must be a power of two.
    pub fn new(capacity: usize) -> (r: Result<Self, LoggingError>)
        ensures
            r is Ok <==> power_of_two(capacity),
            r matches Ok(b) ==> b.wf() && b@ == Seq::<T>::empty() && b.spec_capacity()
                == capacity,
            r matches Err(e) ==> e is BufferError,
    {
        match RingBuffer::new(capacity) {
            Ok(ring) => Ok(MpscRingBuffer { ring }),
            Err(e) => Err(e),
        }
    }

    /// Appends `item` unless the queue is full.
    pub fn try_write(&mut self, item: T) -> (r: Result<(), LoggingError>)
        requires
            old(self).wf(),
        ensures
            final(self).wf(),
            final(self).spec_capacity() == old(self).spec_capacity(),
            r is Ok <==> old(self)@.len() < old(self).spec_capacity(),
            final(self)@ == offer(old(self)@, old(self).spec_capacity() as nat, item),
            r matches Err(e) ==> e is BufferError,
    {
        self.ring.try_write(item)
    }

    /// Takes the oldest item, if there is one.
    pub fn try_read(&mut self) -> (r: Option<T>)
        requires
            old(self).wf(),
        ensures
            final(self).wf(),
            final(self).spec_capacity() == old(self).spec_capacity(),
            r is Some <==> old(self)@.len() > 0,
            r matches Some(item) ==> item == old(self)@[0] && final(self)@ == old(self)@.skip(1),
            r is None ==> final(self)@ == old(self)@,
    {
        self.ring.try_read()
    }

    /// The number of queued items.
    pub fn len(&self) -> (r: usize)
        requires
            self.wf(),
        ensures
            r == self@.len(),
            r <= self.spec_capacity(),
    {
        self.ring.len()
    }

    pub fn is_empty(&self) -> (r: bool)
        requires
            self.wf(),
        ensures
            r == (self@.len() == 0),
    {
        self.ring.is_empty()
    }

    pub fn capacity(&self) -> (r: usize)
        ensures
            r == self.spec_capacity(),
    {
        self.ring.capacity()
    }

    /// Discards every queued item.
    pub fn clear(&mut self)
        requires
            old(self).wf(),
        ensures
            final(self).wf(),
            final(self).spec_capacity() == old(self).spec_capacity(),
            final(self)@ == Seq::<T>::empty(),
    {
        self.ring.clear();
    }
}

} // verus!
