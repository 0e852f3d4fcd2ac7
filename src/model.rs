use vstd::prelude::*;

verus! {

/// Abstract state of a queue: the configured capacity, the two cursors, and
/// the values resident in the slots between them, oldest first.
///
/// Cursors never wrap: each of the `capacity` offsets is claimed at most once
/// over the queue's lifetime, and the last offset is never usable, so at most
/// `capacity - 1` values are ever accepted.
pub struct QueueView<T> {
    pub capacity: nat,
    pub head: nat,
    pub tail: nat,
    pub items: Seq<T>,
}

impl<T> QueueView<T> {
    pub open spec fn wf(self) -> bool {
        &&& 0 < self.capacity
        &&& self.head <= self.tail
        &&& self.tail < self.capacity
        &&& self.items.len() == self.tail - self.head
    }

    /// The state of a queue freshly built with capacity `c`.
    pub open spec fn initial(c: nat) -> QueueView<T> {
        QueueView { capacity: c, head: 0, tail: 0, items: Seq::empty() }
    }

    /// A push succeeds exactly when the next offset is not the final one.
    pub open spec fn can_push(self) -> bool {
        self.tail + 1 < self.capacity
    }

    pub open spec fn after_push(self, v: T) -> QueueView<T> {
        if self.can_push() {
            QueueView { tail: self.tail + 1, items: self.items.push(v), ..self }
        } else {
            self
        }
    }

    /// A pop yields a value exactly when a published value sits at `head`
    /// and `head` can still advance.
    pub open spec fn can_pop(self) -> bool {
        self.head < self.tail && self.head + 1 < self.capacity
    }

    pub open spec fn after_pop(self) -> QueueView<T> {
        if self.can_pop() {
            QueueView { head: self.head + 1, items: self.items.drop_first(), ..self }
        } else {
            self
        }
    }

    /// The number of resident values.
    pub open spec fn len(self) -> nat {
        self.items.len()
    }

    pub open spec fn is_empty(self) -> bool {
        self.head == self.tail
    }

    /// Full when the resident values fill every usable offset.
    pub open spec fn is_full(self) -> bool {
        self.tail - self.head + 1 == self.capacity
    }

    /// The state after pushing each of `vs` in turn.
    pub open spec fn after_pushes(self, vs: Seq<T>) -> QueueView<T>
        decreases vs.len(),
    {
        if vs.len() == 0 {
            self
        } else {
            self.after_pushes(vs.drop_last()).after_push(vs.last())
        }
    }

    /// How many of the pushes of `vs`, made in turn, are accepted.
    pub open spec fn accepted(self, vs: Seq<T>) -> nat
        decreases vs.len(),
    {
        if vs.len() == 0 {
            0
        } else {
            self.accepted(vs.drop_last()) + if self.after_pushes(vs.drop_last()).can_push() {
                1nat
            } else {
                0nat
            }
        }
    }

    /// The values returned by `n` pops made in turn, the empty results left out.
    pub open spec fn popped(self, n: nat) -> Seq<T>
        decreases n,
    {
        if n == 0 || !self.can_pop() {
            Seq::empty()
        } else {
            seq![self.items[0]] + self.after_pop().popped((n - 1) as nat)
        }
    }
}

} // verus!
