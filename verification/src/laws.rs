//! Laws of the bounded sample queue, stated over its abstract value (the
//! sequence of unread samples) and arbitrary runs of producer and consumer
//! operations. The operations here step exactly as the contracts of
//! `SampleQueue::push_many` and `SampleQueue::pop_one` say the queue's
//! view steps, so these laws hold of any interleaving of those calls.

use vstd::prelude::*;

verus! {

/// One abstract operation on the bounded sample queue.
pub enum QueueOp<T> {
    /// The producer inserts a whole frame's samples, in order.
    Push(Seq<T>),
    /// The consumer removes the oldest unread sample, or sees emptiness.
    Pop,
}

/// The producer-wait contract for one operation: a push happens only when
/// every sample of it fits in the free capacity. Pops are always allowed.
pub open spec fn op_respects<T>(cap: nat, s: Seq<T>, op: QueueOp<T>) -> bool {
    match op {
        QueueOp::Push(xs) => s.len() + xs.len() <= cap,
        QueueOp::Pop => true,
    }
}

/// The queue contents after one operation, exactly as the contracts of
/// `push_many` and `pop_one` describe them.
pub open spec fn op_next<T>(s: Seq<T>, op: QueueOp<T>) -> Seq<T> {
    match op {
        QueueOp::Push(xs) => s + xs,
        QueueOp::Pop => if s.len() == 0 {
            s
        } else {
            s.drop_first()
        },
    }
}

/// The samples one operation hands to the consumer: what `pop_one`
/// returns on a non-empty queue, nothing otherwise.
pub open spec fn op_output<T>(s: Seq<T>, op: QueueOp<T>) -> Seq<T> {
    match op {
        QueueOp::Push(_) => Seq::empty(),
        QueueOp::Pop => if s.len() == 0 {
            Seq::empty()
        } else {
            seq![s[0]]
        },
    }
}

/// Whether a whole run of operations respects the producer-wait contract
/// at every step.
pub open spec fn run_respects<T>(cap: nat, s: Seq<T>, ops: Seq<QueueOp<T>>) -> bool
    decreases ops.len(),
{
    ops.len() == 0 || (op_respects(cap, s, ops[0]) && run_respects(
        cap,
        op_next(s, ops[0]),
        ops.drop_first(),
    ))
}

/// The queue contents after a whole run of operations.
pub open spec fn run_next<T>(s: Seq<T>, ops: Seq<QueueOp<T>>) -> Seq<T>
    decreases ops.len(),
{
    if ops.len() == 0 {
        s
    } else {
        run_next(op_next(s, ops[0]), ops.drop_first())
    }
}

/// All the samples a run hands to the consumer, in the order they came out.
pub open spec fn run_output<T>(s: Seq<T>, ops: Seq<QueueOp<T>>) -> Seq<T>
    decreases ops.len(),
{
    if ops.len() == 0 {
        Seq::empty()
    } else {
        op_output(s, ops[0]) + run_output(op_next(s, ops[0]), ops.drop_first())
    }
}

/// All the samples a run pushes, in the order they were pushed.
pub open spec fn pushed_samples<T>(ops: Seq<QueueOp<T>>) -> Seq<T>
    decreases ops.len(),
{
    if ops.len() == 0 {
        Seq::empty()
    } else {
        (match ops[0] {
            QueueOp::Push(xs) => xs,
            QueueOp::Pop => Seq::empty(),
        }) + pushed_samples(ops.drop_first())
    }
}

/// A run of `k` consumer pops.
pub open spec fn pops<T>(k: nat) -> Seq<QueueOp<T>> {
    Seq::new(k, |i: int| QueueOp::Pop)
}

/// No-overwrite and FIFO order in one conservation law: over any run of
/// pushes and pops that respects the producer-wait contract, the samples
/// handed to the consumer followed by those still queued are exactly the
/// initial contents followed by everything pushed — in the same relative
/// order, with no unread sample lost to an overwrite and none duplicated,
/// however the pushes and pops interleave.
pub proof fn lemma_fifo_conservation<T>(cap: nat, s: Seq<T>, ops: Seq<QueueOp<T>>)
    requires
        run_respects(cap, s, ops),
    ensures
        run_output(s, ops) + run_next(s, ops) == s + pushed_samples(ops),
    decreases ops.len(),
{
    if ops.len() == 0 {
        assert(run_output(s, ops) + run_next(s, ops) =~= s);
        assert(s + pushed_samples(ops) =~= s);
    } else {
        let op = ops[0];
        let s1 = op_next(s, op);
        lemma_fifo_conservation(cap, s1, ops.drop_first());
        match op {
            QueueOp::Push(xs) => {
                assert(run_output(s, ops) + run_next(s, ops) =~= run_output(s1, ops.drop_first())
                    + run_next(s1, ops.drop_first()));
                assert((s + xs) + pushed_samples(ops.drop_first()) =~= s + pushed_samples(ops));
            },
            QueueOp::Pop => {
                if s.len() == 0 {
                    assert(run_output(s, ops) + run_next(s, ops) =~= run_output(
                        s1,
                        ops.drop_first(),
                    ) + run_next(s1, ops.drop_first()));
                    assert(s1 + pushed_samples(ops.drop_first()) =~= s + pushed_samples(ops));
                } else {
                    assert(run_output(s, ops) + run_next(s, ops) =~= (seq![s[0]] + run_output(
                        s1,
                        ops.drop_first(),
                    )) + run_next(s1, ops.drop_first()));
                    assert((seq![s[0]] + run_output(s1, ops.drop_first())) + run_next(
                        s1,
                        ops.drop_first(),
                    ) =~= seq![s[0]] + (run_output(s1, ops.drop_first()) + run_next(
                        s1,
                        ops.drop_first(),
                    )));
                    assert(seq![s[0]] + (s1 + pushed_samples(ops.drop_first())) =~= (seq![s[0]]
                        + s1) + pushed_samples(ops.drop_first()));
                    assert(seq![s[0]] + s1 =~= s);
                    assert(s + pushed_samples(ops.drop_first()) =~= s + pushed_samples(ops));
                }
            },
        }
    }
}

/// Capacity conservation: free capacity immediately after pushing `n`
/// samples has decreased by exactly `n`, and a pop of a present sample
/// increases it by exactly one — so concurrent pops only ever make more
/// room, never less.
pub proof fn lemma_capacity_conservation<T>(cap: nat, s: Seq<T>, xs: Seq<T>)
    requires
        s.len() + xs.len() <= cap,
    ensures
        cap - op_next(s, QueueOp::Push(xs)).len() == (cap - s.len()) - xs.len(),
        s.len() > 0 ==> cap - op_next(s, QueueOp::<T>::Pop).len() == (cap - s.len()) + 1,
{
}

/// Draining progress: `k` consumer pops remove exactly the `k` oldest
/// unread samples, or empty the queue if fewer remain.
pub proof fn lemma_drain_progress<T>(s: Seq<T>, k: nat)
    ensures
        run_next(s, pops::<T>(k)) == s.skip(vstd::math::min(k as int, s.len() as int)),
    decreases k,
{
    if k == 0 {
        assert(run_next(s, pops::<T>(0)) =~= s.skip(0));
    } else {
        let s1 = op_next(s, QueueOp::<T>::Pop);
        assert(pops::<T>(k).drop_first() =~= pops::<T>((k - 1) as nat));
        lemma_drain_progress(s1, (k - 1) as nat);
        if s.len() == 0 {
            assert(s1.skip(vstd::math::min(k as int - 1, s1.len() as int)) =~= s.skip(
                vstd::math::min(k as int, s.len() as int),
            ));
        } else {
            assert(s1.skip(vstd::math::min(k as int - 1, s1.len() as int)) =~= s.skip(
                vstd::math::min(k as int, s.len() as int),
            ));
        }
    }
}

/// Backpressure liveness: a producer waiting to push `n` samples into a
/// queue of capacity `cap >= n` is unblocked as soon as the consumer has
/// popped `k` samples with `len + n <= cap + k`: from then on the free
/// capacity is at least `n`, and the wait of the decode loop ends. The
/// producer never waits longer than the consumer needs to free the space.
pub proof fn lemma_backpressure_liveness<T>(cap: nat, s: Seq<T>, n: nat, k: nat)
    requires
        n <= cap,
        s.len() + n <= cap + k,
    ensures
        n <= cap - run_next(s, pops::<T>(k)).len(),
{
    lemma_drain_progress::<T>(s, k);
}

} // verus!
