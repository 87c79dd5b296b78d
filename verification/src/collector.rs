use vstd::prelude::*;
use crate::outcome::BatchResult;
use crate::outcome::Outcome;

verus! {

/// The slots of a batch of `expected` requests before any outcome has
/// arrived.
pub open spec fn vacant<T>(expected: nat) -> Seq<Option<Outcome<T>>> {
    Seq::new(expected, |i: int| None::<Outcome<T>>)
}

/// The slots after the outcome of request `index` arrives: it takes the
/// slot of its request if that slot exists and is still free, and is
/// dropped otherwise.
pub open spec fn accept_rule<T>(
    slots: Seq<Option<Outcome<T>>>,
    index: usize,
    outcome: Outcome<T>,
) -> Seq<Option<Outcome<T>>> {
    if index < slots.len() && slots[index as int] is None {
        slots.update(index as int, Some(outcome))
    } else {
        slots
    }
}

/// The slots after the outcomes of `stream` have arrived in its order.
pub open spec fn gathered<T>(expected: nat, stream: Seq<(usize, Outcome<T>)>) -> Seq<
    Option<Outcome<T>>,
>
    decreases stream.len(),
{
    if stream.len() == 0 {
        vacant(expected)
    } else {
        accept_rule(gathered(expected, stream.drop_last()), stream.last().0, stream.last().1)
    }
}

/// The result that the slots stand for: each outcome that has arrived, as
/// it arrived, and `Cancelled` for each request without one.
pub open spec fn sealed<T>(slots: Seq<Option<Outcome<T>>>) -> Seq<Outcome<T>> {
    Seq::new(
        slots.len(),
        |i: int|
            match slots[i] {
                Some(outcome) => outcome,
                None => Outcome::Cancelled,
            },
    )
}

/// The result of a batch of `expected` requests whose outcomes arrived as
/// `stream`, each with the position of its request.
pub open spec fn collected<T>(expected: nat, stream: Seq<(usize, Outcome<T>)>) -> Seq<
    Outcome<T>,
> {
    sealed(gathered(expected, stream))
}

/// Gathers the outcomes of a batch as they arrive, in any order, and puts
/// each at the position of its request.
#[derive(Debug)]
pub struct Collector<T> {
    slots: Vec<Option<Outcome<T>>>,
}

impl<T> Collector<T> {
    /// One slot per request: the outcome that has arrived for it, if any.
    pub closed spec fn slots(&self) -> Seq<Option<Outcome<T>>> {
        self.slots@
    }

    /// A collector for a batch of `expected` requests, all slots free.
    pub fn new(expected: usize) -> (collector: Collector<T>)
        ensures
            collector.slots() == vacant::<T>(expected as nat),
    {
        let mut slots: Vec<Option<Outcome<T>>> = Vec::new();
        let mut i: usize = 0;
        while i < expected
            invariant
                i <= expected,
                slots@ == vacant::<T>(i as nat),
            decreases expected - i,
        {
            slots.push(None);
            i = i + 1;
            assert(slots@ == vacant::<T>(i as nat));
        }
        Collector { slots }
    }

    /// How many requests the batch holds.
    pub fn expected(&self) -> (n: usize)
        ensures
            n == self.slots().len(),
    {
        self.slots.len()
    }

    /// Whether the outcome of request `index` has arrived.
    pub fn holds(&self, index: usize) -> (b: bool)
        ensures
            b == (index < self.slots().len() && self.slots()[index as int] is Some),
        no_unwind
    {
        if index >= self.slots.len() {
            return false;
        }
        match &self.slots[index] {
            Some(_) => true,
            None => false,
        }
    }

    /// Takes the outcome of request `index`. Returns whether it was kept:
    /// an outcome for a position outside the batch, or for a request that
    /// has its outcome already, is dropped and changes nothing.
    pub fn accept(&mut self, index: usize, outcome: Outcome<T>) -> (kept: bool)
        ensures
            final(self).slots() == accept_rule(old(self).slots(), index, outcome),
            kept == (index < old(self).slots().len() && old(self).slots()[index as int] is None),
        no_unwind
    {
        if index >= self.slots.len() {
            return false;
        }
        match &self.slots[index] {
            Some(_) => false,
            None => {
                self.slots[index] = Some(outcome);
                true
            },
        }
    }

    /// Whether every request has its outcome.
    pub fn is_complete(&self) -> (b: bool)
        ensures
            b == (forall|i: int| 0 <= i < self.slots().len() ==> self.slots()[i] is Some),
    {
        let mut i: usize = 0;
        while i < self.slots.len()
            invariant
                i <= self.slots@.len(),
                forall|j: int| 0 <= j < i ==> self.slots@[j] is Some,
            decreases self.slots@.len() - i,
        {
            if self.slots[i].is_none() {
                return false;
            }
            i = i + 1;
        }
        true
    }

    /// Ends the collection and hands out the result: one outcome per
    /// request, in the batch's order, with `Cancelled` for each request
    /// whose outcome has not arrived.
    pub fn finish(self) -> (result: BatchResult<T>)
        ensures
            result@ == sealed(self.slots()),
    {
        let mut result: Vec<Outcome<T>> = Vec::new();
        for slot in it: self.slots
            invariant
                it.seq() == self.slots@,
                result@ == sealed(self.slots@.take(it.index() as int)),
        {
            let ghost done = it.index() as int;
            assert(slot == it.seq()[done]);
            match slot {
                Some(outcome) => result.push(outcome),
                None => result.push(Outcome::Cancelled),
            }
            assert(result@ == sealed(self.slots@.take(done + 1)));
        }
        assert(self.slots@.take(self.slots@.len() as int) == self.slots@);
        result
    }
}

/// Puts the outcomes of a batch of `expected` requests in the batch's
/// order, whatever the order in which they arrived.
pub fn collect<T>(expected: usize, stream: Vec<(usize, Outcome<T>)>) -> (result: BatchResult<T>)
    ensures
        result@ == collected(expected as nat, stream@),
{
    let mut collector: Collector<T> = Collector::new(expected);
    for entry in it: stream
        invariant
            it.seq() == stream@,
            collector.slots() == gathered(expected as nat, stream@.take(it.index() as int)),
    {
        let ghost done = it.index() as int;
        assert(entry == it.seq()[done]);
        assert(stream@.take(done + 1).drop_last() == stream@.take(done));
        let _ = collector.accept(entry.0, entry.1);
    }
    assert(stream@.take(stream@.len() as int) == stream@);
    collector.finish()
}

/// Arrivals never change how many slots there are.
pub proof fn law_gathered_len<T>(expected: nat, stream: Seq<(usize, Outcome<T>)>)
    ensures
        gathered(expected, stream).len() == expected,
    decreases stream.len(),
{
    if stream.len() > 0 {
        law_gathered_len(expected, stream.drop_last());
    }
}

/// The result has one entry per request, whatever arrived: also when
/// nothing did, when the batch is empty, and when outcomes are missing.
pub proof fn law_result_shape<T>(expected: nat, stream: Seq<(usize, Outcome<T>)>)
    ensures
        collected(expected, stream).len() == expected,
{
    law_gathered_len(expected, stream);
}

/// The first outcome that arrives for a request of the batch stands at
/// that request's position in the result, wherever in the stream it came.
pub proof fn law_order_preserved<T>(expected: nat, stream: Seq<(usize, Outcome<T>)>, k: int)
    requires
        0 <= k < stream.len(),
        stream[k].0 < expected,
        forall|j: int| 0 <= j < k ==> stream[j].0 != stream[k].0,
    ensures
        collected(expected, stream).len() == expected,
        collected(expected, stream)[stream[k].0 as int] == stream[k].1,
{
    lemma_first_kept(expected, stream, k);
}

/// The first outcome that arrives for a request of the batch takes that
/// request's slot and keeps it.
proof fn lemma_first_kept<T>(expected: nat, stream: Seq<(usize, Outcome<T>)>, k: int)
    requires
        0 <= k < stream.len(),
        stream[k].0 < expected,
        forall|j: int| 0 <= j < k ==> stream[j].0 != stream[k].0,
    ensures
        gathered(expected, stream).len() == expected,
        gathered(expected, stream)[stream[k].0 as int] == Some(stream[k].1),
    decreases stream.len(),
{
    law_gathered_len(expected, stream);
    let before = stream.drop_last();
    law_gathered_len(expected, before);
    if k < stream.len() - 1 {
        lemma_first_kept(expected, before, k);
    } else {
        lemma_untouched(expected, before, stream[k].0);
    }
}

/// A request for which no outcome arrived is `Cancelled` in the result.
pub proof fn law_missing_cancelled<T>(
    expected: nat,
    stream: Seq<(usize, Outcome<T>)>,
    index: usize,
)
    requires
        index < expected,
        forall|j: int| 0 <= j < stream.len() ==> stream[j].0 != index,
    ensures
        collected(expected, stream).len() == expected,
        collected(expected, stream)[index as int] == Outcome::<T>::Cancelled,
{
    law_gathered_len(expected, stream);
    lemma_untouched(expected, stream, index);
}

/// The slot of a request for which no outcome arrived is free.
proof fn lemma_untouched<T>(expected: nat, stream: Seq<(usize, Outcome<T>)>, index: usize)
    requires
        index < expected,
        forall|j: int| 0 <= j < stream.len() ==> stream[j].0 != index,
    ensures
        gathered(expected, stream).len() == expected,
        gathered(expected, stream)[index as int] is None,
    decreases stream.len(),
{
    if stream.len() > 0 {
        lemma_untouched(expected, stream.drop_last(), index);
    }
}

} // verus!
