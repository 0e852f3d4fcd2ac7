use vstd::prelude::*;

use crate::model::QueueView;

verus! {

/// One storage cell. Its stamp says whether the cell awaits a push at its
/// offset `i` (stamp `i`) or holds a published value awaiting a pop (stamp
/// `i + 1`); the value is present exactly in the second state.
struct MySlot<T> {
    stamp: usize,
    value: Option<T>,
}

/// A fixed-capacity FIFO queue of slots coordinated by a head cursor (next
/// offset to read) and a tail cursor (next offset to write).
///
/// Operations take `&mut self`: every claim of an offset and every stamp
/// change is one step of the protocol, and threads that share a queue
/// serialise those steps through their own synchronisation.
pub struct MyAtomicQueue<T> {
    head: usize,
    tail: usize,
    buffer: Vec<MySlot<T>>,
    capacity: usize,
}

impl<T> View for MyAtomicQueue<T> {
    type V = QueueView<T>;

    closed spec fn view(&self) -> QueueView<T> {
        QueueView {
            capacity: self.capacity as nat,
            head: self.head as nat,
            tail: self.tail as nat,
            items: Seq::new(
                (self.tail - self.head) as nat,
                |k: int| self.buffer@[self.head + k].value->0,
            ),
        }
    }
}

impl<T> MyAtomicQueue<T> {
    /// The stamp protocol: offsets in `[head, tail)` are published and hold a
    /// value; every other offset awaits a push and holds none.
    pub closed spec fn wf(&self) -> bool {
        &&& 0 < self.capacity
        &&& self.head <= self.tail
        &&& self.tail < self.capacity
        &&& self.buffer@.len() == self.capacity
        &&& forall|i: int|
            0 <= i < self.capacity ==> {
                let published = self.head <= i < self.tail;
                &&& #[trigger] self.buffer@[i].stamp == if published { i + 1 } else { i }
                &&& self.buffer@[i].value is Some <==> published
            }
    }

    pub proof fn lemma_wf_view(&self)
        requires
            self.wf(),
        ensures
            self@.wf(),
    {
    }

    /// Builds an empty queue of `capacity` slots; slot `i` starts with stamp `i`.
    pub fn new(capacity: usize) -> (q: MyAtomicQueue<T>)
        requires
            capacity > 0,
        ensures
            q.wf(),
            q@ == QueueView::<T>::initial(capacity as nat),
    {
        let mut buffer: Vec<MySlot<T>> = Vec::new();
        let mut i: usize = 0;
        while i < capacity
            invariant
                i <= capacity,
                buffer@.len() == i,
                forall|j: int| 0 <= j < i ==> #[trigger] buffer@[j].stamp == j && buffer@[j].value is None,
            decreases capacity - i,
        {
            buffer.push(MySlot { stamp: i, value: None });
            i = i + 1;
        }
        let q = MyAtomicQueue { head: 0, tail: 0, buffer, capacity };
        assert(q@.items =~= Seq::<T>::empty());
        q
    }

    /// Appends `value` at the tail, or hands it back when the tail has reached
    /// the final offset.
    pub fn push(&mut self, value: T) -> (r: Result<(), T>)
        requires
            old(self).wf(),
        ensures
            final(self).wf(),
            final(self)@ == old(self)@.after_push(value),
            old(self)@.can_push() ==> r is Ok,
            !old(self)@.can_push() ==> r == Err::<(), T>(value),
    {
        let tail = self.tail;
        let stamp = self.buffer[tail].stamp;
        if stamp == tail && tail + 1 < self.capacity {
            let ghost before = self@;
            self.tail = tail + 1;
            let slot = &mut self.buffer[tail];
            slot.value = Some(value);
            slot.stamp = tail + 1;
            assert(self@.items =~= before.items.push(value));
            Ok(())
        } else {
            Err(value)
        }
    }

    /// Removes and returns the value at the head, or `None` when no published
    /// value remains.
    pub fn pop(&mut self) -> (r: Option<T>)
        requires
            old(self).wf(),
        ensures
            final(self).wf(),
            final(self)@ == old(self)@.after_pop(),
            old(self)@.can_pop() ==> r == Some(old(self)@.items[0]),
            !old(self)@.can_pop() ==> r is None,
    {
        let head = self.head;
        let stamp = self.buffer[head].stamp;
        if stamp == head + 1 && head + 1 < self.capacity {
            let ghost before = self@;
            self.head = head + 1;
            let slot = &mut self.buffer[head];
            let value = slot.value.take();
            slot.stamp = head;
            assert(self@.items =~= before.items.drop_first());
            value
        } else {
            None
        }
    }

    /// The capacity the queue was built with.
    pub fn capacity(&self) -> (r: usize)
        requires
            self.wf(),
        ensures
            r == self@.capacity,
    {
        self.capacity
    }

    /// `true` when no value is resident.
    pub fn is_empty(&self) -> (r: bool)
        requires
            self.wf(),
        ensures
            r == self@.is_empty(),
            r == (self@.len() == 0),
    {
        self.tail == self.head
    }

    /// `true` when the resident values fill every usable offset.
    pub fn is_full(&self) -> (r: bool)
        requires
            self.wf(),
        ensures
            r == self@.is_full(),
    {
        self.tail - self.head + 1 == self.capacity
    }

    /// The number of resident values.
    pub fn len(&self) -> (r: usize)
        requires
            self.wf(),
        ensures
            r == self@.len(),
    {
        if self.tail == self.head {
            0
        } else {
            self.tail - self.head
        }
    }
}

} // verus!
