use vstd::prelude::*;
use crate::outcome::ExecutorError;
use crate::outcome::Outcome;
use crate::policy::RetryPolicy;

verus! {

/// Where a retry sequence stands.
#[derive(Debug, Clone, Copy, PartialEq, Eq, Structural)]
pub enum Phase {
    /// Not begun.
    Pending,
    /// A request has been sent and its result is awaited.
    Attempting,
    /// The last attempt failed and the wait before the next one runs.
    BackingOff,
    /// Ended with a value.
    Succeeded,
    /// Ended after the last attempt the policy allows.
    Exhausted,
    /// Ended by the caller or by the deadline.
    Cancelled,
}

/// What happens to a retry sequence.
#[derive(Debug)]
pub enum Event<T> {
    /// The request was admitted: make the first attempt.
    Begin,
    /// The executor has answered the attempt in flight.
    Reply(Result<T, ExecutorError>),
    /// Time has passed.
    Tick,
    /// The caller gives the run up.
    Cancel,
}

/// What the driver of a retry sequence is to do next.
#[derive(Debug, Clone, PartialEq, Eq)]
pub enum Step<T> {
    /// Send the request now and come back with the executor's `Reply`.
    Send,
    /// Come back with a `Tick` once this many milliseconds have passed.
    Wait(u64),
    /// The run is over, with this outcome.
    Done(Outcome<T>),
    /// The event changes nothing.
    Idle,
}

/// The part of a retry sequence that changes. Times are milliseconds on
/// the driver's clock.
#[derive(Debug, Clone, Copy, PartialEq, Eq, Structural)]
pub struct Progress {
    pub phase: Phase,
    /// How many attempts have been started, the one in flight included.
    pub attempt: u8,
    /// The latest time seen.
    pub clock: u128,
    /// When the first attempt was started.
    pub started_at: u128,
    /// When the latest attempt was started.
    pub attempt_started_at: u128,
    /// When the latest wait began.
    pub waiting_since: u128,
}

/// The part of a retry sequence that is fixed when it is created.
pub ghost struct Rules {
    pub max_attempts: u8,
    pub schedule: Seq<u64>,
    /// How long the whole run may last, if it is limited.
    pub deadline: Option<u64>,
}

impl Rules {
    /// At least one attempt, and a wait for every retry there can be.
    pub open spec fn wf(self) -> bool {
        &&& self.max_attempts >= 1
        &&& self.schedule.len() >= self.max_attempts - 1
    }
}

impl Progress {
    /// Whether the run is over.
    pub open spec fn is_terminal(self) -> bool {
        self.phase is Succeeded || self.phase is Exhausted || self.phase is Cancelled
    }

    /// What holds of every state that a run can reach.
    pub open spec fn wf(self, rules: Rules) -> bool {
        &&& rules.wf()
        &&& self.phase is Pending ==> self.attempt == 0
        &&& !(self.phase is Pending) && !(self.phase is Cancelled) ==> self.attempt >= 1
        &&& self.attempt <= rules.max_attempts
        &&& self.phase is BackingOff ==> self.attempt < rules.max_attempts
        &&& self.phase is Exhausted ==> self.attempt == rules.max_attempts
        &&& self.started_at <= self.attempt_started_at <= self.clock
        &&& self.phase is BackingOff ==> self.attempt_started_at <= self.waiting_since
            <= self.clock
    }
}

/// The clock after a reading of `now`: it never runs backwards, so an
/// earlier reading counts as the latest one seen.
pub open spec fn clock_after(clock: u128, now: u128) -> u128 {
    if now > clock {
        now
    } else {
        clock
    }
}

/// Whether a run that began at `started_at` has used up its deadline at
/// time `t`.
pub open spec fn expired(rules: Rules, started_at: u128, t: u128) -> bool {
    rules.deadline matches Some(limit) && t - started_at >= limit
}

/// The state before the first event.
pub open spec fn initial() -> Progress {
    Progress {
        phase: Phase::Pending,
        attempt: 0,
        clock: 0,
        started_at: 0,
        attempt_started_at: 0,
        waiting_since: 0,
    }
}

/// The retry rule: the state after `event` arrives at time `now`, and what
/// the driver is to do.
///
/// A run that is over ignores everything. Before it has begun, a run can
/// only begin or be cancelled. While it runs, a cancellation or a used-up
/// deadline ends it as `Cancelled`. A successful reply ends it with the
/// value; a failed reply ends it as `Exhausted` on the last attempt and
/// otherwise starts the wait that the schedule gives for this attempt. A
/// tick at which that wait is over starts the next attempt.
pub open spec fn next<T>(rules: Rules, p: Progress, now: u128, event: Event<T>) -> (
    Progress,
    Step<T>,
) {
    let t = clock_after(p.clock, now);
    let seen = Progress { clock: t, ..p };
    match p.phase {
        Phase::Succeeded | Phase::Exhausted | Phase::Cancelled => (p, Step::Idle),
        Phase::Pending => match event {
            Event::Begin => (
                Progress {
                    phase: Phase::Attempting,
                    attempt: 1,
                    clock: t,
                    started_at: t,
                    attempt_started_at: t,
                    waiting_since: t,
                },
                Step::Send,
            ),
            Event::Cancel => (
                Progress {
                    phase: Phase::Cancelled,
                    clock: t,
                    started_at: t,
                    attempt_started_at: t,
                    waiting_since: t,
                    ..p
                },
                Step::Done(Outcome::Cancelled),
            ),
            _ => (p, Step::Idle),
        },
        Phase::Attempting => if event is Cancel || expired(rules, p.started_at, t) {
            (Progress { phase: Phase::Cancelled, ..seen }, Step::Done(Outcome::Cancelled))
        } else {
            match event {
                Event::Reply(Ok(value)) => (
                    Progress { phase: Phase::Succeeded, ..seen },
                    Step::Done(Outcome::Success(value)),
                ),
                Event::Reply(Err(error)) => if p.attempt >= rules.max_attempts {
                    (
                        Progress { phase: Phase::Exhausted, ..seen },
                        Step::Done(Outcome::Exhausted(error)),
                    )
                } else {
                    (
                        Progress { phase: Phase::BackingOff, waiting_since: t, ..seen },
                        Step::Wait(rules.schedule[p.attempt - 1]),
                    )
                },
                _ => (seen, Step::Idle),
            }
        },
        Phase::BackingOff => if event is Cancel || expired(rules, p.started_at, t) {
            (Progress { phase: Phase::Cancelled, ..seen }, Step::Done(Outcome::Cancelled))
        } else {
            match event {
                Event::Tick => if t - p.waiting_since >= rules.schedule[p.attempt - 1] {
                    (
                        Progress {
                            phase: Phase::Attempting,
                            attempt: (p.attempt + 1) as u8,
                            attempt_started_at: t,
                            ..seen
                        },
                        Step::Send,
                    )
                } else {
                    (
                        seen,
                        Step::Wait(
                            (rules.schedule[p.attempt - 1] - (t - p.waiting_since)) as u64,
                        ),
                    )
                },
                _ => (seen, Step::Idle),
            }
        },
    }
}

/// One request's retry sequence, as a machine that is told what happened
/// and answers what to do. It sends nothing and never sleeps: its driver
/// does, and hands back each result with the time on its clock.
#[derive(Debug)]
pub struct RetryEngine {
    policy: RetryPolicy,
    deadline: Option<u64>,
    progress: Progress,
}

impl RetryEngine {
    /// The policy and deadline that the engine was created with.
    pub closed spec fn rules(&self) -> Rules {
        Rules {
            max_attempts: self.policy.spec_max_attempts(),
            schedule: self.policy.schedule(),
            deadline: self.deadline,
        }
    }

    /// Where the run stands.
    pub closed spec fn spec_progress(&self) -> Progress {
        self.progress
    }

    /// The state is one that a run can reach under its rules.
    #[verifier::type_invariant]
    pub open spec fn wf(&self) -> bool {
        self.spec_progress().wf(self.rules())
    }

    /// A run that has not begun. `deadline` limits how long the run may
    /// last from its first attempt on.
    pub fn new(policy: RetryPolicy, deadline: Option<u64>) -> (engine: RetryEngine)
        ensures
            engine.wf(),
            engine.rules() == (Rules {
                max_attempts: policy.spec_max_attempts(),
                schedule: policy.schedule(),
                deadline,
            }),
            engine.spec_progress() == initial(),
    {
        proof {
            use_type_invariant(&policy);
        }
        RetryEngine {
            policy,
            deadline,
            progress: Progress {
                phase: Phase::Pending,
                attempt: 0,
                clock: 0,
                started_at: 0,
                attempt_started_at: 0,
                waiting_since: 0,
            },
        }
    }

    /// Where the run stands.
    #[verifier::when_used_as_spec(spec_progress)]
    pub fn progress(&self) -> (p: Progress)
        ensures
            p == self.spec_progress(),
            p.wf(self.rules()),
    {
        proof {
            use_type_invariant(self);
        }
        self.progress
    }

    /// How many times the request has been sent so far.
    pub fn attempts(&self) -> (n: u8)
        ensures
            n == self.spec_progress().attempt,
            n <= self.rules().max_attempts,
    {
        proof {
            use_type_invariant(self);
        }
        self.progress.attempt
    }

    /// The time from the first attempt to the latest time seen; once the
    /// run is over, to its end.
    pub fn elapsed(&self) -> (ms: u128)
        ensures
            ms == self.spec_progress().clock - self.spec_progress().started_at,
    {
        proof {
            use_type_invariant(self);
        }
        self.progress.clock - self.progress.started_at
    }

    /// Whether the run is over.
    pub fn is_finished(&self) -> (b: bool)
        ensures
            b == self.spec_progress().is_terminal(),
    {
        match self.progress.phase {
            Phase::Succeeded | Phase::Exhausted | Phase::Cancelled => true,
            _ => false,
        }
    }

    /// Takes one event at time `now` and says what to do next, as `next`
    /// lays down.
    pub fn step<T>(&mut self, now: u128, event: Event<T>) -> (action: Step<T>)
        ensures
            final(self).wf(),
            final(self).rules() == old(self).rules(),
            (final(self).spec_progress(), action) == next(
                old(self).rules(),
                old(self).spec_progress(),
                now,
                event,
            ),
    {
        proof {
            use_type_invariant(&*self);
            use_type_invariant(&self.policy);
        }
        let p = self.progress;
        let t = if now > p.clock {
            now
        } else {
            p.clock
        };
        let seen = Progress {
            phase: p.phase,
            attempt: p.attempt,
            clock: t,
            started_at: p.started_at,
            attempt_started_at: p.attempt_started_at,
            waiting_since: p.waiting_since,
        };
        match p.phase {
            Phase::Succeeded | Phase::Exhausted | Phase::Cancelled => Step::Idle,
            Phase::Pending => match event {
                Event::Begin => {
                    self.progress = Progress {
                        phase: Phase::Attempting,
                        attempt: 1,
                        clock: t,
                        started_at: t,
                        attempt_started_at: t,
                        waiting_since: t,
                    };
                    Step::Send
                },
                Event::Cancel => {
                    self.progress = Progress {
                        phase: Phase::Cancelled,
                        attempt: p.attempt,
                        clock: t,
                        started_at: t,
                        attempt_started_at: t,
                        waiting_since: t,
                    };
                    Step::Done(Outcome::Cancelled)
                },
                _ => Step::Idle,
            },
            Phase::Attempting | Phase::BackingOff => {
                let over = match self.deadline {
                    Some(limit) => t - p.started_at >= limit as u128,
                    None => false,
                };
                let cancel = match &event {
                    Event::Cancel => true,
                    _ => false,
                };
                if cancel || over {
                    self.progress = Progress { phase: Phase::Cancelled, ..seen };
                    return Step::Done(Outcome::Cancelled);
                }
                match p.phase {
                    Phase::Attempting => match event {
                        Event::Reply(Ok(value)) => {
                            self.progress = Progress { phase: Phase::Succeeded, ..seen };
                            Step::Done(Outcome::Success(value))
                        },
                        Event::Reply(Err(error)) => {
                            match self.policy.backoff_after(p.attempt) {
                                None => {
                                    self.progress = Progress { phase: Phase::Exhausted, ..seen };
                                    Step::Done(Outcome::Exhausted(error))
                                },
                                Some(wait) => {
                                    self.progress = Progress {
                                        phase: Phase::BackingOff,
                                        waiting_since: t,
                                        ..seen
                                    };
                                    Step::Wait(wait)
                                },
                            }
                        },
                        _ => {
                            self.progress = seen;
                            Step::Idle
                        },
                    },
                    _ => match event {
                        Event::Tick => {
                            let wait = match self.policy.backoff_after(p.attempt) {
                                Some(wait) => wait,
                                None => 0,
                            };
                            let waited = t - p.waiting_since;
                            if waited >= wait as u128 {
                                self.progress = Progress {
                                    phase: Phase::Attempting,
                                    attempt: p.attempt + 1,
                                    attempt_started_at: t,
                                    ..seen
                                };
                                Step::Send
                            } else {
                                self.progress = seen;
                                Step::Wait(wait - waited as u64)
                            }
                        },
                        _ => {
                            self.progress = seen;
                            Step::Idle
                        },
                    },
                }
            },
        }
    }
}

/// The state that a run reaches from its beginning through `events`, each
/// with the time at which it arrives.
pub open spec fn run<T>(rules: Rules, events: Seq<(u128, Event<T>)>) -> Progress
    decreases events.len(),
{
    if events.len() == 0 {
        initial()
    } else {
        next(rules, run(rules, events.drop_last()), events.last().0, events.last().1).0
    }
}

/// The times at which a run through `events` was told to send the
/// request: entry `i` is the start of attempt `i + 1`.
pub open spec fn send_times<T>(rules: Rules, events: Seq<(u128, Event<T>)>) -> Seq<u128>
    decreases events.len(),
{
    if events.len() == 0 {
        Seq::empty()
    } else {
        let earlier = send_times(rules, events.drop_last());
        let step = next(rules, run(rules, events.drop_last()), events.last().0, events.last().1);
        if step.1 is Send {
            earlier.push(step.0.clock)
        } else {
            earlier
        }
    }
}

/// One step keeps a well-formed state well-formed, never turns the clock
/// back, and sends the request exactly when it counts one more attempt. A
/// run that is over stays as it is, a run hands out its outcome exactly
/// when it ends, and no run goes back to where it has not begun.
pub proof fn law_step<T>(rules: Rules, p: Progress, now: u128, event: Event<T>)
    requires
        p.wf(rules),
    ensures
        next(rules, p, now, event).0.wf(rules),
        next(rules, p, now, event).0.clock >= p.clock,
        next(rules, p, now, event).1 is Send ==> next(rules, p, now, event).0.attempt == p.attempt
            + 1,
        !(next(rules, p, now, event).1 is Send) ==> next(rules, p, now, event).0.attempt
            == p.attempt,
        p.is_terminal() ==> next(rules, p, now, event) == (p, Step::<T>::Idle),
        !(p.phase is Pending) ==> !(next(rules, p, now, event).0.phase is Pending),
        next(rules, p, now, event).1 is Done <==> !p.is_terminal() && next(
            rules,
            p,
            now,
            event,
        ).0.is_terminal(),
{
}

/// Whatever happens to a run, and in whatever order, the request is sent
/// once per attempt counted and never more often than the policy allows;
/// a run that ends as `Exhausted` has sent it exactly that often.
pub proof fn law_attempts_bounded<T>(rules: Rules, events: Seq<(u128, Event<T>)>)
    requires
        rules.wf(),
    ensures
        run(rules, events).wf(rules),
        send_times(rules, events).len() == run(rules, events).attempt,
        send_times(rules, events).len() <= rules.max_attempts,
        run(rules, events).phase is Exhausted ==> send_times(rules, events).len()
            == rules.max_attempts,
    decreases events.len(),
{
    if events.len() > 0 {
        law_attempts_bounded(rules, events.drop_last());
        law_step(rules, run(rules, events.drop_last()), events.last().0, events.last().1);
    }
}

/// Whatever happens to a run, attempt `i + 2` starts no sooner after the
/// start of attempt `i + 1` than the schedule's entry `i` says.
pub proof fn law_backoff_respected<T>(rules: Rules, events: Seq<(u128, Event<T>)>, i: int)
    requires
        rules.wf(),
        0 <= i,
        i + 1 < send_times(rules, events).len(),
    ensures
        i < rules.schedule.len(),
        send_times(rules, events)[i + 1] - send_times(rules, events)[i] >= rules.schedule[i],
    decreases events.len(),
{
    lemma_send_times(rules, events);
    if events.len() > 0 {
        let before = events.drop_last();
        lemma_send_times(rules, before);
        if i + 1 < send_times(rules, before).len() {
            law_backoff_respected(rules, before, i);
        }
    }
}

/// The last time in `send_times` is the start of the latest attempt.
proof fn lemma_send_times<T>(rules: Rules, events: Seq<(u128, Event<T>)>)
    requires
        rules.wf(),
    ensures
        run(rules, events).wf(rules),
        send_times(rules, events).len() == run(rules, events).attempt,
        run(rules, events).attempt >= 1 ==> send_times(rules, events).last() == run(
            rules,
            events,
        ).attempt_started_at,
    decreases events.len(),
{
    if events.len() > 0 {
        lemma_send_times(rules, events.drop_last());
        law_step(rules, run(rules, events.drop_last()), events.last().0, events.last().1);
    }
}

/// What a run makes of a recorded sequence of executor results, from the
/// point at which the first `failed` of them have failed: the outcome, and
/// how often the request is sent in all.
pub open spec fn outcome_from<T>(
    max_attempts: u8,
    replies: Seq<Result<T, ExecutorError>>,
    failed: nat,
) -> (Outcome<T>, nat)
    decreases replies.len() - failed,
{
    if failed >= replies.len() {
        (Outcome::Cancelled, failed + 1)
    } else {
        match replies[failed as int] {
            Ok(value) => (Outcome::Success(value), failed + 1),
            Err(error) => if failed + 1 >= max_attempts {
                (Outcome::Exhausted(error), failed + 1)
            } else {
                outcome_from(max_attempts, replies, failed + 1)
            },
        }
    }
}

/// What a run makes of a recorded sequence of executor results when
/// nothing cancels it and every wait is kept: success with the first
/// value, if one comes within the attempts allowed; exhaustion with the
/// last error allowed, if none does; and cancellation once the request has
/// been sent and the record holds no result for it.
pub open spec fn replay_outcome<T>(max_attempts: u8, replies: Seq<Result<T, ExecutorError>>) -> (
    Outcome<T>,
    nat,
) {
    outcome_from(max_attempts, replies, 0)
}

/// An executor that fails every time is asked exactly as often as the
/// policy allows, and the run ends as `Exhausted` with its last error.
pub proof fn law_always_failing<T>(max_attempts: u8, replies: Seq<Result<T, ExecutorError>>)
    requires
        max_attempts >= 1,
        replies.len() >= max_attempts,
        forall|i: int| 0 <= i < max_attempts ==> replies[i] is Err,
    ensures
        replay_outcome(max_attempts, replies) == (
            Outcome::<T>::Exhausted(replies[max_attempts - 1]->Err_0),
            max_attempts as nat,
        ),
{
    lemma_failures_skipped(max_attempts, replies, (max_attempts - 1) as nat);
}

/// An executor that first succeeds on attempt `k`, within the attempts
/// allowed, is asked exactly `k` times, and the run ends with its value.
pub proof fn law_first_success<T>(
    max_attempts: u8,
    replies: Seq<Result<T, ExecutorError>>,
    k: nat,
)
    requires
        1 <= k <= max_attempts,
        k <= replies.len(),
        replies[k - 1] is Ok,
        forall|i: int| 0 <= i < k - 1 ==> replies[i] is Err,
    ensures
        replay_outcome(max_attempts, replies) == (Outcome::<T>::Success(replies[k - 1]->Ok_0), k),
{
    lemma_failures_skipped(max_attempts, replies, (k - 1) as nat);
}

/// Failures before the last attempt allowed are passed over.
proof fn lemma_failures_skipped<T>(
    max_attempts: u8,
    replies: Seq<Result<T, ExecutorError>>,
    n: nat,
)
    requires
        n < max_attempts,
        n <= replies.len(),
        forall|i: int| 0 <= i < n ==> replies[i] is Err,
    ensures
        replay_outcome(max_attempts, replies) == outcome_from(max_attempts, replies, n),
    decreases n,
{
    if n > 0 {
        lemma_failures_skipped(max_attempts, replies, (n - 1) as nat);
    }
}

/// Plays a recorded sequence of executor results through a fresh engine
/// without deadline, on a clock that moves on by exactly each wait asked
/// for. Returns the outcome and how often the request was sent.
pub fn replay<T>(policy: RetryPolicy, replies: Vec<Result<T, ExecutorError>>) -> (r: (
    Outcome<T>,
    u8,
))
    ensures
        r.0 == replay_outcome(policy.spec_max_attempts(), replies@).0,
        r.1 == replay_outcome(policy.spec_max_attempts(), replies@).1,
{
    let ghost max = policy.spec_max_attempts();
    let mut engine = RetryEngine::new(policy, None);
    let mut clock: u128 = 0;
    let _ = engine.step(clock, Event::<T>::Begin);
    for reply in it: replies
        invariant
            engine.wf(),
            max == policy.spec_max_attempts(),
            engine.rules().max_attempts == max,
            engine.rules().deadline is None,
            engine.spec_progress().phase is Attempting,
            engine.spec_progress().attempt == it.index() + 1,
            engine.spec_progress().clock == clock,
            clock <= it.index() * u64::MAX,
            it.index() < max,
            it.seq() == replies@,
            replay_outcome(max, it.seq()) == outcome_from(max, it.seq(), it.index() as nat),
    {
        assert(reply == it.seq()[it.index() as int]);
        match engine.step(clock, Event::Reply(reply)) {
            Step::Done(outcome) => {
                return (outcome, engine.attempts());
            },
            Step::Wait(ms) => {
                clock = clock + ms as u128;
                let _ = engine.step(clock, Event::<T>::Tick);
            },
            _ => {},
        }
    }
    let _ = engine.step(clock, Event::<T>::Cancel);
    (Outcome::Cancelled, engine.attempts())
}

} // verus!
