//! What a queue does over a whole run of pushes and pops.
//!
//! A run is a sequence of operations. Each theorem here follows the buffers
//! of a queue through a run and says what its pops hand back.

use vstd::prelude::*;
use crate::queue::Buffers;

verus! {

/// One operation on a queue.
pub enum Op<T> {
    /// A push of the given value.
    Push(T),
    /// A pop.
    Pop,
}

impl<T> Buffers<T> {
    /// The state after one operation.
    pub open spec fn step(self, op: Op<T>) -> Buffers<T> {
        match op {
            Op::Push(value) => self.push(value),
            Op::Pop => self.without_front(),
        }
    }

    /// The state after the operations of `ops`, carried out in order.
    pub open spec fn after(self, ops: Seq<Op<T>>) -> Buffers<T>
        decreases ops.len(),
    {
        if ops.len() == 0 {
            self
        } else {
            self.after(ops.drop_last()).step(ops.last())
        }
    }

    /// What the pops among `ops` return, one entry for each pop, in order.
    pub open spec fn answers(self, ops: Seq<Op<T>>) -> Seq<Option<T>>
        decreases ops.len(),
    {
        if ops.len() == 0 {
            Seq::empty()
        } else {
            let earlier = self.answers(ops.drop_last());
            match ops.last() {
                Op::Push(_) => earlier,
                Op::Pop => earlier.push(self.after(ops.drop_last()).front()),
            }
        }
    }
}

/// The values that `ops` pushes, in the order of the pushes.
pub open spec fn pushed<T>(ops: Seq<Op<T>>) -> Seq<T>
    decreases ops.len(),
{
    if ops.len() == 0 {
        Seq::empty()
    } else {
        match ops.last() {
            Op::Push(value) => pushed(ops.drop_last()).push(value),
            Op::Pop => pushed(ops.drop_last()),
        }
    }
}

/// The values among `answers`, in order, with every `None` left out.
pub open spec fn present<T>(answers: Seq<Option<T>>) -> Seq<T>
    decreases answers.len(),
{
    if answers.len() == 0 {
        Seq::empty()
    } else {
        match answers.last() {
            Some(value) => present(answers.drop_last()).push(value),
            None => present(answers.drop_last()),
        }
    }
}

/// One push for each value of `values`, in order.
pub open spec fn pushes<T>(values: Seq<T>) -> Seq<Op<T>> {
    Seq::new(values.len(), |i: int| Op::Push(values[i]))
}

/// `n` pops.
pub open spec fn pops<T>(n: nat) -> Seq<Op<T>> {
    Seq::new(n, |i: int| Op::Pop)
}

/// A run can be cut in two: the second part starts where the first ended.
pub proof fn lemma_after_concat<T>(start: Buffers<T>, first: Seq<Op<T>>, second: Seq<Op<T>>)
    ensures
        start.after(first + second) == start.after(first).after(second),
        start.answers(first + second) == start.answers(first) + start.after(first).answers(
            second,
        ),
    decreases second.len(),
{
    if second.len() == 0 {
        assert(first + second =~= first);
        assert(start.answers(first) + Seq::<Option<T>>::empty() =~= start.answers(first));
    } else {
        assert((first + second).drop_last() =~= first + second.drop_last());
        lemma_after_concat(start, first, second.drop_last());
        let middle = start.after(first);
        match second.last() {
            Op::Push(_) => {},
            Op::Pop => {
                let front = middle.after(second.drop_last()).front();
                assert(start.answers(first) + middle.answers(second.drop_last()).push(front)
                    =~= (start.answers(first) + middle.answers(second.drop_last())).push(front));
            },
        }
    }
}

/// Nothing is lost, doubled or reordered in a run: what its pops return,
/// the absent results left out, followed by what the queue still holds, is
/// what the queue held at the start followed by what the run pushed.
pub proof fn lemma_run_keeps_order<T>(start: Buffers<T>, ops: Seq<Op<T>>)
    ensures
        present(start.answers(ops)) + start.after(ops).contents() == start.contents() + pushed(
            ops,
        ),
    decreases ops.len(),
{
    let all = start.contents() + pushed(ops);
    let out = present(start.answers(ops));
    let kept = start.after(ops).contents();
    if ops.len() == 0 {
        assert(out + kept =~= all);
    } else {
        let before = ops.drop_last();
        lemma_run_keeps_order(start, before);
        let state = start.after(before);
        let out_before = present(start.answers(before));
        let all_before = start.contents() + pushed(before);
        assert(out_before + state.contents() == all_before);
        match ops.last() {
            Op::Push(value) => {
                state.lemma_push_contents(value);
                assert(out + kept =~= (out_before + state.contents()).push(value));
                assert(all =~= all_before.push(value));
            },
            Op::Pop => {
                state.lemma_front_contents();
                state.lemma_without_front_contents();
                let answers = start.answers(before).push(state.front());
                assert(answers.drop_last() =~= start.answers(before));
                if state.contents().len() > 0 {
                    assert(out + kept =~= out_before + state.contents());
                }
            },
        }
    }
}

/// Pops hand back the elements in the order in which they came in, whatever
/// the interleaving of pushes and pops. With the elements that the queue
/// held at the start taken as pushed before the run began: the values that
/// the pops of a run return, the absent results left out, are the pushed
/// values in push order, as far as the pops got; the queue still holds the
/// rest; and at no point of the run have more values been returned than
/// had been pushed by then, so that each value is returned only after its
/// own push.
pub proof fn lemma_interleaving_keeps_order<T>(start: Buffers<T>, ops: Seq<Op<T>>)
    ensures
        present(start.answers(ops)).len() <= start.contents().len() + pushed(ops).len(),
        present(start.answers(ops)) == (start.contents() + pushed(ops)).take(
            present(start.answers(ops)).len() as int,
        ),
        start.after(ops).contents() == (start.contents() + pushed(ops)).skip(
            present(start.answers(ops)).len() as int,
        ),
        forall|k: int|
            0 <= k <= ops.len() ==> present(#[trigger] start.answers(ops.take(k))).len()
                <= start.contents().len() + pushed(ops.take(k)).len(),
{
    let all = start.contents() + pushed(ops);
    let out = present(start.answers(ops));
    let kept = start.after(ops).contents();
    lemma_run_keeps_order(start, ops);
    assert(out =~= all.take(out.len() as int));
    assert(kept =~= all.skip(out.len() as int));
    assert forall|k: int| 0 <= k <= ops.len() implies present(
        #[trigger] start.answers(ops.take(k)),
    ).len() <= start.contents().len() + pushed(ops.take(k)).len() by {
        let early = ops.take(k);
        lemma_run_keeps_order(start, early);
        let out_early = present(start.answers(early));
        assert((out_early + start.after(early).contents()).len() == (start.contents() + pushed(
            early,
        )).len());
    }
}

/// Pushes alone append their values to the contents and call for no answer.
pub proof fn lemma_pushes_append<T>(start: Buffers<T>, values: Seq<T>)
    ensures
        start.after(pushes(values)).contents() == start.contents() + values,
        start.answers(pushes(values)) == Seq::<Option<T>>::empty(),
        pushed(pushes(values)) == values,
    decreases values.len(),
{
    if values.len() == 0 {
        assert(start.contents() + values =~= start.contents());
        assert(pushed(pushes(values)) =~= values);
    } else {
        let ops = pushes(values);
        assert(ops.drop_last() =~= pushes(values.drop_last()));
        assert(ops.last() == Op::Push(values.last()));
        lemma_pushes_append(start, values.drop_last());
        start.after(ops.drop_last()).lemma_push_contents(values.last());
        assert((start.contents() + values.drop_last()).push(values.last()) =~= start.contents()
            + values);
        assert(values.drop_last().push(values.last()) =~= values);
    }
}

/// As many pops as a queue holds elements, or fewer, return those at the
/// front, each of them present, in order, and leave the rest.
pub proof fn lemma_pops_take_front<T>(start: Buffers<T>, n: nat)
    requires
        n <= start.contents().len(),
    ensures
        start.answers(pops(n)) == start.contents().take(n as int).map_values(
            |value: T| Some(value),
        ),
        start.after(pops(n)).contents() == start.contents().skip(n as int),
    decreases n,
{
    let wrap = |value: T| Some(value);
    if n == 0 {
        assert(start.answers(pops(n)) =~= start.contents().take(0).map_values(wrap));
        assert(start.contents().skip(0) =~= start.contents());
    } else {
        let ops = pops::<T>(n);
        let fewer = (n - 1) as nat;
        assert(ops.drop_last() =~= pops::<T>(fewer));
        assert(ops.last() == Op::<T>::Pop);
        lemma_pops_take_front(start, fewer);
        let state = start.after(pops(fewer));
        state.lemma_front_contents();
        state.lemma_without_front_contents();
        assert(state.contents().first() == start.contents()[n - 1]);
        assert(start.answers(ops) =~= start.contents().take(n as int).map_values(wrap));
        assert(start.contents().skip(n - 1).drop_first() =~= start.contents().skip(n as int));
    }
}

/// First in, first out: where values are pushed onto an empty queue with no
/// pop in between, as many pops return exactly these values, each of them
/// present, in the order of the pushes, and leave the queue empty.
pub proof fn lemma_fifo_order<T>(values: Seq<T>)
    ensures
        Buffers::<T>::empty().answers(pushes(values) + pops(values.len())) == values.map_values(
            |value: T| Some(value),
        ),
        Buffers::<T>::empty().after(pushes(values) + pops(values.len())).is_empty(),
{
    let start = Buffers::<T>::empty();
    let filled = start.after(pushes(values));
    lemma_after_concat(start, pushes(values), pops(values.len()));
    lemma_pushes_append(start, values);
    assert(filled.contents() =~= values);
    lemma_pops_take_front(filled, values.len());
    assert(values.take(values.len() as int) =~= values);
    assert(Seq::<Option<T>>::empty() + filled.answers(pops(values.len()))
        =~= filled.answers(pops(values.len())));
    filled.after(pops(values.len())).lemma_is_empty_contents();
}

/// A queue that started empty is empty exactly when it has been pushed onto
/// as often as it has been popped with a present result.
pub proof fn lemma_empty_iff_counts_agree<T>(ops: Seq<Op<T>>)
    ensures
        Buffers::<T>::empty().after(ops).is_empty() <==> pushed(ops).len() - present(
            Buffers::<T>::empty().answers(ops),
        ).len() == 0,
{
    let start = Buffers::<T>::empty();
    lemma_run_keeps_order(start, ops);
    start.after(ops).lemma_is_empty_contents();
    assert(start.contents() + pushed(ops) =~= pushed(ops));
    assert((present(start.answers(ops)) + start.after(ops).contents()).len() == pushed(ops).len());
}

/// Pops of an empty queue, however many, each return nothing and leave the
/// queue as it was.
pub proof fn lemma_pops_of_empty<T>(start: Buffers<T>, n: nat)
    requires
        start.is_empty(),
    ensures
        start.after(pops(n)) == start,
        start.answers(pops(n)) == Seq::new(n, |i: int| None::<T>),
    decreases n,
{
    if n == 0 {
        assert(start.answers(pops(n)) =~= Seq::new(n, |i: int| None::<T>));
    } else {
        let ops = pops::<T>(n);
        let fewer = (n - 1) as nat;
        assert(ops.drop_last() =~= pops::<T>(fewer));
        assert(ops.last() == Op::<T>::Pop);
        lemma_pops_of_empty(start, fewer);
        assert(start.answers(ops) =~= Seq::new(n, |i: int| None::<T>));
    }
}

impl<T> Buffers<T> {
    /// The number of elements that one operation carries over from `younger`
    /// to `older`: all of `younger` for a pop that finds `older` empty, and
    /// none otherwise.
    pub open spec fn carried(self, op: Op<T>) -> nat {
        match op {
            Op::Push(_) => 0,
            Op::Pop => if self.older.len() == 0 {
                self.younger.len()
            } else {
                0
            },
        }
    }

    /// The number of elements carried over in the whole of a run.
    pub open spec fn carried_in(self, ops: Seq<Op<T>>) -> nat
        decreases ops.len(),
    {
        if ops.len() == 0 {
            0
        } else {
            self.carried_in(ops.drop_last()) + self.after(ops.drop_last()).carried(ops.last())
        }
    }
}

/// Each element is carried over at most once between its push and its pop:
/// the elements carried over in a run, together with those that wait in
/// `younger` at its end, are those that waited there at the start and those
/// that the run pushed. The work of carrying over is thus bounded by the
/// number of pushes, however it is spread over the pops.
pub proof fn lemma_carried_over_once<T>(start: Buffers<T>, ops: Seq<Op<T>>)
    ensures
        start.carried_in(ops) + start.after(ops).younger.len() == start.younger.len() + pushed(
            ops,
        ).len(),
    decreases ops.len(),
{
    if ops.len() > 0 {
        lemma_carried_over_once(start, ops.drop_last());
    }
}

} // verus!
