use vstd::prelude::*;

use crate::model::QueueView;

verus! {

/// Pushing a run of values onto a well-formed queue accepts exactly the first
/// `k` of them, where `k` is the number of usable offsets left (or the run's
/// length, if smaller); the accepted values are appended in order.
pub proof fn lemma_pushes<T>(q: QueueView<T>, vs: Seq<T>)
    requires
        q.wf(),
    ensures
        ({
            let k = if vs.len() < q.capacity - 1 - q.tail {
                vs.len() as int
            } else {
                q.capacity - 1 - q.tail
            };
            let p = q.after_pushes(vs);
            &&& p.wf()
            &&& p.capacity == q.capacity
            &&& p.head == q.head
            &&& p.tail == q.tail + k
            &&& p.items == q.items + vs.take(k)
            &&& q.accepted(vs) == k
        }),
    decreases vs.len(),
{
    if vs.len() > 0 {
        let init = vs.drop_last();
        lemma_pushes(q, init);
        let p = q.after_pushes(init);
        let k0 = if init.len() < q.capacity - 1 - q.tail {
            init.len() as int
        } else {
            q.capacity - 1 - q.tail
        };
        assert(init.take(k0) =~= vs.take(k0));
        if p.can_push() {
            assert(vs.take(k0 + 1) =~= vs.take(k0).push(vs.last()));
        }
    }
}

/// A run of `n` pops on a well-formed queue returns its first `n` resident
/// values (all of them, if fewer), oldest first.
pub proof fn lemma_pops<T>(q: QueueView<T>, n: nat)
    requires
        q.wf(),
    ensures
        q.popped(n) == q.items.take(if n < q.items.len() { n as int } else { q.items.len() as int }),
    decreases n,
{
    if n == 0 || !q.can_pop() {
        assert(q.items.take(0) =~= Seq::<T>::empty());
    } else {
        let r = q.after_pop();
        lemma_pops(r, (n - 1) as nat);
        let m = if n < q.items.len() { n as int } else { q.items.len() as int };
        assert(q.items.take(m) =~= seq![q.items[0]] + q.items.drop_first().take(m - 1));
    }
}

/// For every capacity `c > 0`, a freshly built queue holds nothing and
/// reports itself empty.
pub proof fn lemma_fresh_queue_is_empty<T>(c: nat)
    requires
        c > 0,
    ensures
        QueueView::<T>::initial(c).wf(),
        QueueView::<T>::initial(c).len() == 0,
        QueueView::<T>::initial(c).is_empty(),
{
}

/// One accepted push on a fresh queue leaves a length of 1; after `c - 1`
/// accepted pushes a further push is refused and leaves the queue as it was.
pub proof fn lemma_push_counts<T>(c: nat, v: T, vs: Seq<T>, w: T)
    requires
        c > 0,
        vs.len() == c - 1,
    ensures
        QueueView::<T>::initial(c).can_push() ==> QueueView::<T>::initial(c).after_push(v).len() == 1,
        QueueView::<T>::initial(c).accepted(vs) == c - 1,
        !QueueView::<T>::initial(c).after_pushes(vs).can_push(),
        QueueView::<T>::initial(c).after_pushes(vs).after_push(w)
            == QueueView::<T>::initial(c).after_pushes(vs),
{
    lemma_pushes(QueueView::<T>::initial(c), vs);
}

/// A pop on an empty queue yields nothing and changes nothing.
pub proof fn lemma_pop_empty<T>(q: QueueView<T>)
    requires
        q.wf(),
        q.is_empty(),
    ensures
        !q.can_pop(),
        q.after_pop() == q,
{
}

/// Values come out in the order they went in: after pushing `vs` onto a
/// well-formed queue with room for all of them, popping until empty returns
/// the values already resident followed by `vs`.
pub proof fn lemma_fifo<T>(q: QueueView<T>, vs: Seq<T>)
    requires
        q.wf(),
        q.tail + vs.len() < q.capacity,
    ensures
        q.accepted(vs) == vs.len(),
        q.after_pushes(vs).popped(q.items.len() + vs.len()) == q.items + vs,
{
    lemma_pushes(q, vs);
    let p = q.after_pushes(vs);
    assert(vs.take(vs.len() as int) =~= vs);
    lemma_pops(p, q.items.len() + vs.len());
    assert(p.items.take(p.items.len() as int) =~= p.items);
}

/// Pushes of distinct values, one per producer, into a fresh queue of
/// capacity above their number, whatever order they are claimed in: every one
/// is accepted, the length equals the number accepted, and each value sits in
/// exactly one slot.
pub proof fn lemma_distinct_pushes<T>(c: nat, vs: Seq<T>)
    requires
        c >= vs.len() + 1,
        vs.no_duplicates(),
    ensures
        QueueView::<T>::initial(c).accepted(vs) == vs.len(),
        QueueView::<T>::initial(c).after_pushes(vs).len() == QueueView::<T>::initial(c).accepted(vs),
        QueueView::<T>::initial(c).after_pushes(vs).items == vs,
        QueueView::<T>::initial(c).after_pushes(vs).items.no_duplicates(),
{
    lemma_pushes(QueueView::<T>::initial(c), vs);
    assert(vs.take(vs.len() as int) =~= vs);
    assert(Seq::<T>::empty() + vs =~= vs);
}

/// Whatever the capacity and the values pushed, the length of a queue that
/// has only been pushed to equals the number of accepted pushes.
pub proof fn lemma_len_is_accepted<T>(c: nat, vs: Seq<T>)
    requires
        c > 0,
    ensures
        QueueView::<T>::initial(c).after_pushes(vs).len() == QueueView::<T>::initial(c).accepted(vs),
{
    lemma_pushes(QueueView::<T>::initial(c), vs);
}

/// Pushing `v` onto an empty queue with room and then popping returns exactly
/// `v`, once: the queue is empty again and a further pop yields nothing.
pub proof fn lemma_round_trip<T>(q: QueueView<T>, v: T)
    requires
        q.wf(),
        q.is_empty(),
        q.can_push(),
    ensures
        q.after_push(v).can_pop(),
        q.after_push(v).items[0] == v,
        q.after_push(v).after_pop().len() == 0,
        !q.after_push(v).after_pop().can_pop(),
{
}

} // verus!
