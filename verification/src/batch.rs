use vstd::prelude::*;
use crate::collector::collected;
use crate::collector::law_order_preserved;
use crate::collector::sealed;
use crate::collector::vacant;
use crate::collector::Collector;
use crate::outcome::BatchResult;
use crate::outcome::ExecutorError;
use crate::outcome::Outcome;
use crate::policy::RetryPolicy;
use crate::policy::ThrottleConfig;
use crate::retry::replay;
use crate::retry::replay_outcome;
use crate::scheduler::idle;
use crate::scheduler::poll_rule;
use crate::scheduler::release_rule;
use crate::scheduler::Admission;
use crate::scheduler::Limits;
use crate::scheduler::Load;
use crate::scheduler::Scheduler;

verus! {

/// How many of the first `upto` slots are free.
pub open spec fn open_slots<T>(slots: Seq<Option<Outcome<T>>>, upto: int) -> int
    decreases upto,
{
    if upto <= 0 {
        0
    } else {
        open_slots(slots, upto - 1) + if slots[upto - 1] is None {
            1int
        } else {
            0int
        }
    }
}

/// Filling a free slot among the first `upto` leaves one free slot fewer.
proof fn lemma_slot_filled<T>(
    slots: Seq<Option<Outcome<T>>>,
    upto: int,
    index: int,
    outcome: Outcome<T>,
)
    requires
        0 <= index < upto <= slots.len(),
        slots[index] is None,
    ensures
        open_slots(slots.update(index, Some(outcome)), upto) == open_slots(slots, upto) - 1,
        open_slots(slots, upto) >= 1,
    decreases upto,
{
    lemma_open_slots_bounds(slots, upto - 1);
    if index < upto - 1 {
        lemma_slot_filled(slots, upto - 1, index, outcome);
    } else {
        lemma_slots_beyond(slots, upto - 1, index, outcome);
    }
}

/// Filling a slot does not change the count of free slots before it.
proof fn lemma_slots_beyond<T>(
    slots: Seq<Option<Outcome<T>>>,
    upto: int,
    index: int,
    outcome: Outcome<T>,
)
    requires
        0 <= upto <= index < slots.len(),
    ensures
        open_slots(slots.update(index, Some(outcome)), upto) == open_slots(slots, upto),
    decreases upto,
{
    if upto > 0 {
        lemma_slots_beyond(slots, upto - 1, index, outcome);
    }
}

/// There are between none and `upto` free slots among the first `upto`,
/// and none exactly if each of them is taken.
proof fn lemma_open_slots_bounds<T>(slots: Seq<Option<Outcome<T>>>, upto: int)
    requires
        0 <= upto <= slots.len(),
    ensures
        0 <= open_slots(slots, upto) <= upto,
        open_slots(slots, upto) == 0 <==> (forall|i: int| 0 <= i < upto ==> slots[i] is Some),
    decreases upto,
{
    if upto > 0 {
        lemma_open_slots_bounds(slots, upto - 1);
    }
}

/// The one owner of what the retry sequences of a batch share: when the
/// last request was released, how many sequences run, and the outcomes
/// that have arrived. Every admission and every outcome passes through it,
/// one at a time.
#[derive(Debug)]
pub struct Batch<T> {
    scheduler: Scheduler,
    collector: Collector<T>,
}

impl<T> Batch<T> {
    /// The batch size and throttle that the batch was created with.
    pub closed spec fn limits(&self) -> Limits {
        self.scheduler.limits()
    }

    /// Where admission stands.
    pub closed spec fn load(&self) -> Load {
        self.scheduler.spec_load()
    }

    /// One slot per request: the outcome that has arrived for it, if any.
    pub closed spec fn slots(&self) -> Seq<Option<Outcome<T>>> {
        self.collector.slots()
    }

    /// There is a slot for every request, only released requests have an
    /// outcome, and exactly the released requests without one count as
    /// running.
    #[verifier::type_invariant]
    pub open spec fn wf(&self) -> bool {
        &&& self.load().wf(self.limits())
        &&& self.slots().len() == self.limits().total
        &&& forall|i: int| self.load().admitted <= i < self.slots().len() ==> self.slots()[i] is None
        &&& open_slots(self.slots(), self.load().admitted as int) == self.load().active()
    }

    /// A batch of `total` requests, none released yet.
    pub fn new(total: usize, throttle: ThrottleConfig) -> (batch: Batch<T>)
        ensures
            batch.wf(),
            batch.limits() == (Limits {
                total,
                min_interval: throttle.spec_min_interval(),
                max_concurrency: throttle.spec_max_concurrency(),
            }),
            batch.load() == idle(),
            batch.slots() == vacant::<T>(total as nat),
    {
        let scheduler = Scheduler::new(total, throttle);
        let collector = Collector::new(total);
        Batch { scheduler, collector }
    }

    /// Asks at time `now` whether the next request may be released, and
    /// releases it if so, as the scheduler's `poll_rule` lays down.
    pub fn poll(&mut self, now: u128) -> (answer: Admission)
        ensures
            final(self).wf(),
            final(self).limits() == old(self).limits(),
            final(self).slots() == old(self).slots(),
            (final(self).load(), answer) == poll_rule(old(self).limits(), old(self).load(), now),
    {
        proof {
            use_type_invariant(&*self);
        }
        self.scheduler.poll(now)
    }

    /// Takes the outcome of request `index` and counts its retry sequence
    /// as ended. Returns whether the outcome was kept: one for a request
    /// that has not been released, or that has its outcome already, is
    /// dropped and changes nothing.
    pub fn settle(&mut self, index: usize, outcome: Outcome<T>) -> (kept: bool)
        ensures
            final(self).wf(),
            final(self).limits() == old(self).limits(),
            kept == (index < old(self).load().admitted && old(self).slots()[index as int] is None),
            kept ==> final(self).slots() == old(self).slots().update(index as int, Some(outcome)),
            kept ==> final(self).load() == release_rule(old(self).load()).0,
            kept ==> release_rule(old(self).load()).1,
            !kept ==> final(self).slots() == old(self).slots() && final(self).load() == old(self).load(),
    {
        proof {
            use_type_invariant(&*self);
        }
        settle_both(&mut self.scheduler, &mut self.collector, index, outcome)
    }

    /// Gives the batch up: from now on nothing is released. Outcomes of
    /// what runs are still taken.
    pub fn cancel(&mut self)
        ensures
            final(self).wf(),
            final(self).limits() == old(self).limits(),
            final(self).slots() == old(self).slots(),
            final(self).load() == (Load { cancelled: true, ..old(self).load() }),
    {
        proof {
            use_type_invariant(&*self);
        }
        self.scheduler.cancel();
    }

    /// How many retry sequences are running.
    pub fn active(&self) -> (n: usize)
        ensures
            n == self.load().active(),
            n <= self.limits().max_concurrency,
    {
        self.scheduler.active()
    }

    /// Whether the batch is over: nothing is left to release and nothing
    /// runs.
    pub fn is_done(&self) -> (b: bool)
        ensures
            b == self.load().is_done(self.limits()),
            b && !self.load().cancelled ==> forall|i: int|
                0 <= i < self.slots().len() ==> self.slots()[i] is Some,
    {
        proof {
            use_type_invariant(self);
            lemma_open_slots_bounds(self.slots(), self.load().admitted as int);
        }
        self.scheduler.is_done()
    }

    /// Ends the batch and hands out the result: one outcome per request,
    /// in the batch's order. Each outcome that has arrived stands as it
    /// arrived; each request without one is `Cancelled`.
    pub fn finish(self) -> (result: BatchResult<T>)
        ensures
            result@ == sealed(self.slots()),
            result@.len() == self.limits().total,
    {
        proof {
            use_type_invariant(&self);
        }
        self.collector.finish()
    }
}

/// Takes the outcome of a released request that has none yet, and counts
/// one running sequence fewer; any other outcome is dropped.
fn settle_both<T>(
    scheduler: &mut Scheduler,
    collector: &mut Collector<T>,
    index: usize,
    outcome: Outcome<T>,
) -> (kept: bool)
    requires
        old(scheduler).wf(),
        old(collector).slots().len() == old(scheduler).limits().total,
        open_slots(old(collector).slots(), old(scheduler).spec_load().admitted as int) == old(scheduler).spec_load().active(),
    ensures
        final(scheduler).wf(),
        final(scheduler).limits() == old(scheduler).limits(),
        kept == (index < old(scheduler).spec_load().admitted && old(collector).slots()[index as int]
            is None),
        kept ==> final(collector).slots() == old(collector).slots().update(
            index as int,
            Some(outcome),
        ),
        kept ==> final(scheduler).spec_load() == release_rule(old(scheduler).spec_load()).0,
        kept ==> release_rule(old(scheduler).spec_load()).1,
        !kept ==> final(collector).slots() == old(collector).slots() && final(scheduler).spec_load() == old(scheduler).spec_load(),
        open_slots(final(collector).slots(), final(scheduler).spec_load().admitted as int) == final(scheduler).spec_load().active(),
    no_unwind
{
    let admitted = scheduler.load().admitted;
    if index >= admitted || collector.holds(index) {
        return false;
    }
    proof {
        lemma_slot_filled(collector.slots(), admitted as int, index as int, outcome);
    }
    let kept = collector.accept(index, outcome);
    let _ = scheduler.release();
    kept
}

/// Plays recorded executor results for a whole batch: request `i` meets
/// the results `scripts[i]`. The requests are released as the throttle
/// allows, on a clock that moves on by exactly each wait asked for, and
/// each runs to its end before the next is released. Returns the batch's
/// result and, for each request, how often it was sent.
pub fn replay_batch<T>(
    policy: &RetryPolicy,
    throttle: ThrottleConfig,
    scripts: Vec<Vec<Result<T, ExecutorError>>>,
) -> (r: (BatchResult<T>, Vec<u8>))
    ensures
        r.0@.len() == scripts@.len(),
        r.1@.len() == scripts@.len(),
        forall|i: int|
            0 <= i < scripts@.len() ==> r.0@[i] == replay_outcome(
                policy.spec_max_attempts(),
                #[trigger] scripts@[i]@,
            ).0,
        forall|i: int|
            0 <= i < scripts@.len() ==> r.1@[i] == replay_outcome(
                policy.spec_max_attempts(),
                #[trigger] scripts@[i]@,
            ).1,
{
    let total = scripts.len();
    let mut batch: Batch<T> = Batch::new(total, throttle);
    let mut sent: Vec<u8> = Vec::new();
    let mut clock: u128 = 0;
    for script in it: scripts
        invariant
            it.seq() == scripts@,
            total == scripts@.len(),
            batch.limits().total == total,
            batch.limits().min_interval == throttle.spec_min_interval(),
            !batch.load().cancelled,
            batch.load().admitted == it.index(),
            batch.load().active() == 0,
            batch.load().clock == clock,
            clock <= it.index() * u64::MAX,
            sent@.len() == it.index(),
            forall|i: int|
                0 <= i < it.index() ==> batch.slots()[i] == Some(
                    replay_outcome(policy.spec_max_attempts(), #[trigger] scripts@[i]@).0,
                ),
            forall|i: int|
                0 <= i < it.index() ==> sent@[i] == replay_outcome(
                    policy.spec_max_attempts(),
                    #[trigger] scripts@[i]@,
                ).1,
    {
        let index = sent.len();
        proof {
            use_type_invariant(&batch);
            use_type_invariant(&throttle);
        }
        match batch.poll(clock) {
            Admission::Throttled(wait) => {
                clock = clock + wait as u128;
                let _ = batch.poll(clock);
            },
            _ => {},
        }
        let (outcome, attempts) = replay(policy.clone(), script);
        let _ = batch.settle(index, outcome);
        sent.push(attempts);
    }
    let result = batch.finish();
    (result, sent)
}

/// Some entry up to `k` is the first for its request.
proof fn lemma_first_arrival<T>(arrivals: Seq<(usize, Outcome<T>)>, k: int) -> (first: int)
    requires
        0 <= k < arrivals.len(),
    ensures
        0 <= first <= k,
        arrivals[first].0 == arrivals[k].0,
        forall|j: int| 0 <= j < first ==> arrivals[j].0 != arrivals[k].0,
    decreases k,
{
    if exists|j: int| 0 <= j < k && arrivals[j].0 == arrivals[k].0 {
        let j = choose|j: int| 0 <= j < k && arrivals[j].0 == arrivals[k].0;
        lemma_first_arrival(arrivals, j)
    } else {
        k
    }
}

/// The result of a batch does not depend on which request ends first: if
/// each outcome that arrives is what its request's executor record makes,
/// then a request whose outcome arrives stands in the result with just that
/// outcome, at its own position, wherever among the arrivals it came.
pub proof fn law_batch_order<T>(
    max_attempts: u8,
    scripts: Seq<Seq<Result<T, ExecutorError>>>,
    arrivals: Seq<(usize, Outcome<T>)>,
    k: int,
)
    requires
        0 <= k < arrivals.len(),
        forall|j: int|
            0 <= j < arrivals.len() ==> (#[trigger] arrivals[j]).0 < scripts.len()
                && arrivals[j].1 == replay_outcome(max_attempts, scripts[arrivals[j].0 as int]).0,
    ensures
        collected(scripts.len(), arrivals).len() == scripts.len(),
        collected(scripts.len(), arrivals)[arrivals[k].0 as int] == replay_outcome(
            max_attempts,
            scripts[arrivals[k].0 as int],
        ).0,
{
    let first = lemma_first_arrival(arrivals, k);
    assert(arrivals[first].1 == replay_outcome(max_attempts, scripts[arrivals[first].0 as int]).0);
    law_order_preserved(scripts.len(), arrivals, first);
}

} // verus!
