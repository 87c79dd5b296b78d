use vstd::prelude::*;
use crate::policy::ThrottleConfig;
use crate::retry::clock_after;

verus! {

/// The answer to the question whether the next request of a batch may be
/// released now.
#[derive(Debug, Clone, Copy, PartialEq, Eq, Structural)]
pub enum Admission {
    /// The request at this position of the batch is released: start its
    /// retry sequence now.
    Admit(usize),
    /// The last admission is too recent: ask again once this many
    /// milliseconds have passed.
    Throttled(u64),
    /// As many retry sequences run as may run at once: ask again when one
    /// of them has ended.
    Saturated,
    /// Nothing is left to admit: every request has been released, or the
    /// batch was cancelled.
    Closed,
}

/// The part of a scheduler that changes. Times are milliseconds on the
/// driver's clock.
#[derive(Debug, Clone, Copy, PartialEq, Eq, Structural)]
pub struct Load {
    /// How many requests have been released; they are the first of the
    /// batch, in its order.
    pub admitted: usize,
    /// How many of the released requests have reached their outcome.
    pub finished: usize,
    /// When the latest request was released.
    pub last_admission: Option<u128>,
    /// The latest time seen.
    pub clock: u128,
    /// Whether the batch was cancelled.
    pub cancelled: bool,
}

/// The part of a scheduler that is fixed when it is created.
pub ghost struct Limits {
    /// How many requests the batch holds.
    pub total: usize,
    pub min_interval: u64,
    pub max_concurrency: usize,
}

/// What is done to a scheduler.
pub ghost enum Call {
    /// It is asked, at this time, whether the next request may go.
    Poll(u128),
    /// It is told that one retry sequence has ended.
    Release,
    /// It is told that the batch is given up.
    Cancel,
}

impl Load {
    /// How many retry sequences are running.
    pub open spec fn active(self) -> int {
        self.admitted - self.finished
    }

    /// What holds of every state that a scheduler can reach.
    pub open spec fn wf(self, limits: Limits) -> bool {
        &&& limits.max_concurrency >= 1
        &&& self.finished <= self.admitted <= limits.total
        &&& self.active() <= limits.max_concurrency
        &&& self.last_admission is Some <==> self.admitted > 0
        &&& self.last_admission matches Some(t) ==> t <= self.clock
    }

    /// Whether the batch is over: nothing is left to admit and nothing
    /// runs.
    pub open spec fn is_done(self, limits: Limits) -> bool {
        (self.cancelled || self.admitted == limits.total) && self.finished == self.admitted
    }
}

/// The state of a scheduler that has admitted nothing yet.
pub open spec fn idle() -> Load {
    Load { admitted: 0, finished: 0, last_admission: None, clock: 0, cancelled: false }
}

/// The admission rule: the state after the scheduler is asked at time
/// `now`, and its answer.
///
/// Nothing is admitted once the batch is cancelled or used up, nor while
/// as many sequences run as may run at once, nor before the minimum
/// interval since the last admission has passed. Otherwise the next
/// request in the batch's order is admitted, at the time of asking.
pub open spec fn poll_rule(limits: Limits, load: Load, now: u128) -> (Load, Admission) {
    let t = clock_after(load.clock, now);
    let seen = Load { clock: t, ..load };
    if load.cancelled || load.admitted >= limits.total {
        (seen, Admission::Closed)
    } else if load.active() >= limits.max_concurrency {
        (seen, Admission::Saturated)
    } else if load.last_admission is Some && t - load.last_admission->0 < limits.min_interval {
        (
            seen,
            Admission::Throttled((limits.min_interval - (t - load.last_admission->0)) as u64),
        )
    } else {
        (
            Load { admitted: (load.admitted + 1) as usize, last_admission: Some(t), ..seen },
            Admission::Admit(load.admitted),
        )
    }
}

/// The release rule: one running sequence fewer, if any runs.
pub open spec fn release_rule(load: Load) -> (Load, bool) {
    if load.finished < load.admitted {
        (Load { finished: (load.finished + 1) as usize, ..load }, true)
    } else {
        (load, false)
    }
}

/// The state after one call.
pub open spec fn apply(limits: Limits, load: Load, call: Call) -> Load {
    match call {
        Call::Poll(now) => poll_rule(limits, load, now).0,
        Call::Release => release_rule(load).0,
        Call::Cancel => Load { cancelled: true, ..load },
    }
}

/// The state that a fresh scheduler reaches through `calls`.
pub open spec fn load_after(limits: Limits, calls: Seq<Call>) -> Load
    decreases calls.len(),
{
    if calls.len() == 0 {
        idle()
    } else {
        apply(limits, load_after(limits, calls.drop_last()), calls.last())
    }
}

/// The times at which a fresh scheduler admits a request in the course of
/// `calls`: entry `i` is the admission of request `i`.
pub open spec fn admission_times(limits: Limits, calls: Seq<Call>) -> Seq<u128>
    decreases calls.len(),
{
    if calls.len() == 0 {
        Seq::empty()
    } else {
        let earlier = admission_times(limits, calls.drop_last());
        let before = load_after(limits, calls.drop_last());
        match calls.last() {
            Call::Poll(now) => if poll_rule(limits, before, now).1 is Admit {
                earlier.push(poll_rule(limits, before, now).0.clock)
            } else {
                earlier
            },
            _ => earlier,
        }
    }
}

/// The coordinator of a batch: it alone decides when the next request is
/// released, so that admissions keep their distance and no more retry
/// sequences run at once than the throttle allows. It starts nothing
/// itself: its driver asks, starts what is admitted, and reports each
/// sequence that has ended.
#[derive(Debug)]
pub struct Scheduler {
    throttle: ThrottleConfig,
    total: usize,
    load: Load,
}

impl Scheduler {
    /// The batch size and throttle that the scheduler was created with.
    pub closed spec fn limits(&self) -> Limits {
        Limits {
            total: self.total,
            min_interval: self.throttle.spec_min_interval(),
            max_concurrency: self.throttle.spec_max_concurrency(),
        }
    }

    /// Where the batch stands.
    pub closed spec fn spec_load(&self) -> Load {
        self.load
    }

    /// The state is one that a scheduler can reach under its limits.
    #[verifier::type_invariant]
    pub open spec fn wf(&self) -> bool {
        self.spec_load().wf(self.limits())
    }

    /// A scheduler for a batch of `total` requests, none admitted yet.
    pub fn new(total: usize, throttle: ThrottleConfig) -> (scheduler: Scheduler)
        ensures
            scheduler.wf(),
            scheduler.limits() == (Limits {
                total,
                min_interval: throttle.spec_min_interval(),
                max_concurrency: throttle.spec_max_concurrency(),
            }),
            scheduler.spec_load() == idle(),
    {
        proof {
            use_type_invariant(&throttle);
        }
        Scheduler {
            throttle,
            total,
            load: Load {
                admitted: 0,
                finished: 0,
                last_admission: None,
                clock: 0,
                cancelled: false,
            },
        }
    }

    /// Where the batch stands.
    #[verifier::when_used_as_spec(spec_load)]
    pub fn load(&self) -> (load: Load)
        ensures
            load == self.spec_load(),
            load.wf(self.limits()),
        no_unwind
    {
        proof {
            use_type_invariant(self);
        }
        self.load
    }

    /// How many retry sequences are running.
    pub fn active(&self) -> (n: usize)
        ensures
            n == self.spec_load().active(),
            n <= self.limits().max_concurrency,
    {
        proof {
            use_type_invariant(self);
        }
        self.load.admitted - self.load.finished
    }

    /// Whether the batch is over: nothing is left to admit and nothing
    /// runs.
    pub fn is_done(&self) -> (b: bool)
        ensures
            b == self.spec_load().is_done(self.limits()),
    {
        (self.load.cancelled || self.load.admitted == self.total) && self.load.finished
            == self.load.admitted
    }

    /// Asks at time `now` whether the next request may be released, and
    /// releases it if so, as `poll_rule` lays down.
    pub fn poll(&mut self, now: u128) -> (answer: Admission)
        ensures
            final(self).wf(),
            final(self).limits() == old(self).limits(),
            (final(self).spec_load(), answer) == poll_rule(
                old(self).limits(),
                old(self).spec_load(),
                now,
            ),
        no_unwind
    {
        proof {
            use_type_invariant(&*self);
        }
        let load = self.load;
        let t = if now > load.clock {
            now
        } else {
            load.clock
        };
        let seen = Load { clock: t, ..load };
        if load.cancelled || load.admitted >= self.total {
            self.load = seen;
            return Admission::Closed;
        }
        if load.admitted - load.finished >= self.throttle.max_concurrency() {
            self.load = seen;
            return Admission::Saturated;
        }
        match load.last_admission {
            Some(last) => {
                let since = t - last;
                let interval = self.throttle.min_interval();
                if since < interval as u128 {
                    self.load = seen;
                    return Admission::Throttled(interval - since as u64);
                }
            },
            None => {},
        }
        self.load = Load { admitted: load.admitted + 1, last_admission: Some(t), ..seen };
        Admission::Admit(load.admitted)
    }

    /// Reports that one retry sequence has ended. Returns whether one was
    /// running; if none was, nothing changes.
    pub fn release(&mut self) -> (released: bool)
        ensures
            final(self).wf(),
            final(self).limits() == old(self).limits(),
            (final(self).spec_load(), released) == release_rule(old(self).spec_load()),
        no_unwind
    {
        proof {
            use_type_invariant(&*self);
        }
        let load = self.load;
        if load.finished < load.admitted {
            self.load = Load { finished: load.finished + 1, ..load };
            true
        } else {
            false
        }
    }

    /// Gives the batch up: from now on nothing is admitted. What runs is
    /// still to be reported when it ends.
    pub fn cancel(&mut self)
        ensures
            final(self).wf(),
            final(self).limits() == old(self).limits(),
            final(self).spec_load() == (Load { cancelled: true, ..old(self).spec_load() }),
        no_unwind
    {
        proof {
            use_type_invariant(&*self);
        }
        let load = self.load;
        self.load = Load { cancelled: true, ..load };
    }
}

/// One call keeps a well-formed state well-formed and never turns the
/// clock back.
pub proof fn law_apply(limits: Limits, load: Load, call: Call)
    requires
        load.wf(limits),
    ensures
        apply(limits, load, call).wf(limits),
        apply(limits, load, call).clock >= load.clock,
        apply(limits, load, call).admitted >= load.admitted,
{
}

/// Whatever is done to a scheduler, and in whatever order, no more retry
/// sequences run at once than the throttle allows, and the requests
/// admitted are the first of the batch, in its order.
pub proof fn law_concurrency_capped(limits: Limits, calls: Seq<Call>)
    requires
        limits.max_concurrency >= 1,
    ensures
        load_after(limits, calls).wf(limits),
        0 <= load_after(limits, calls).active() <= limits.max_concurrency,
        admission_times(limits, calls).len() == load_after(limits, calls).admitted,
        load_after(limits, calls).admitted <= limits.total,
    decreases calls.len(),
{
    if calls.len() > 0 {
        law_concurrency_capped(limits, calls.drop_last());
        law_apply(limits, load_after(limits, calls.drop_last()), calls.last());
    }
}

/// Whatever is done to a scheduler, two requests that follow each other in
/// the batch are admitted at least the minimum interval apart.
pub proof fn law_admissions_spaced(limits: Limits, calls: Seq<Call>, i: int)
    requires
        limits.max_concurrency >= 1,
        0 <= i,
        i + 1 < admission_times(limits, calls).len(),
    ensures
        admission_times(limits, calls)[i + 1] - admission_times(limits, calls)[i]
            >= limits.min_interval,
    decreases calls.len(),
{
    lemma_last_admission(limits, calls);
    if calls.len() > 0 {
        let before = calls.drop_last();
        lemma_last_admission(limits, before);
        if i + 1 < admission_times(limits, before).len() {
            law_admissions_spaced(limits, before, i);
        }
    }
}

/// Whatever is done to a scheduler, any two requests of the batch are
/// admitted at least the minimum interval apart, the earlier one first.
pub proof fn law_throttle_spacing(limits: Limits, calls: Seq<Call>, i: int, j: int)
    requires
        limits.max_concurrency >= 1,
        0 <= i < j < admission_times(limits, calls).len(),
    ensures
        admission_times(limits, calls)[j] - admission_times(limits, calls)[i]
            >= limits.min_interval,
    decreases j - i,
{
    law_admissions_spaced(limits, calls, j - 1);
    if i < j - 1 {
        law_throttle_spacing(limits, calls, i, j - 1);
    }
}

/// The last time in `admission_times` is the state's latest admission.
proof fn lemma_last_admission(limits: Limits, calls: Seq<Call>)
    requires
        limits.max_concurrency >= 1,
    ensures
        load_after(limits, calls).wf(limits),
        admission_times(limits, calls).len() == load_after(limits, calls).admitted,
        load_after(limits, calls).admitted > 0 ==> load_after(limits, calls).last_admission
            == Some(admission_times(limits, calls).last()),
    decreases calls.len(),
{
    if calls.len() > 0 {
        lemma_last_admission(limits, calls.drop_last());
        law_apply(limits, load_after(limits, calls.drop_last()), calls.last());
    }
}

} // verus!
