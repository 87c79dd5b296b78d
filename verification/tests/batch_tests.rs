use poc_client::batch::replay_batch;
use poc_client::batch::Batch;
use poc_client::outcome::tally;
use poc_client::outcome::ExecutorError;
use poc_client::outcome::Outcome;
use poc_client::outcome::Tally;
use poc_client::policy::RetryPolicy;
use poc_client::policy::ThrottleConfig;
use poc_client::retry::Event;
use poc_client::retry::RetryEngine;
use poc_client::retry::Step;
use poc_client::scheduler::Admission;

fn failure(request: usize, attempt: usize) -> ExecutorError {
    ExecutorError::Transport(format!("request {} attempt {}", request, attempt))
}

/// What a test run of a batch has seen.
struct Seen {
    result: Vec<Outcome<String>>,
    calls: usize,
    calls_per_request: Vec<usize>,
    admitted_at: Vec<u128>,
    most_in_flight: usize,
    most_active: usize,
    finished_in_order: Vec<usize>,
}

/// One retry sequence of a test run.
struct Unit {
    engine: RetryEngine,
    /// When the call in flight returns.
    reply_at: Option<u128>,
    /// When the wait that runs is over.
    wake_at: Option<u128>,
}

/// Runs a batch on a clock that is moved by hand, one millisecond at a
/// time. `scripts[i]` holds what the transport answers to request `i`, call
/// by call; each call of request `i` takes `latency[i]` milliseconds, and
/// what falls due within a millisecond is seen at the next. At `cancel_at`,
/// if given, the batch is given up.
fn run(
    scripts: &[Vec<Result<String, ExecutorError>>],
    latency: &[u128],
    policy: &RetryPolicy,
    throttle: ThrottleConfig,
    cancel_at: Option<u128>,
) -> Seen {
    let total = scripts.len();
    let mut batch: Batch<String> = Batch::new(total, throttle);
    let mut units: Vec<Unit> = Vec::new();
    let mut seen = Seen {
        result: Vec::new(),
        calls: 0,
        calls_per_request: vec![0; total],
        admitted_at: Vec::new(),
        most_in_flight: 0,
        most_active: 0,
        finished_in_order: Vec::new(),
    };
    let mut now: u128 = 0;
    while !batch.is_done() {
        assert!(now < 100_000, "the batch does not come to an end");
        if cancel_at == Some(now) {
            batch.cancel();
            for (index, unit) in units.iter_mut().enumerate() {
                if let Step::Done(outcome) = unit.engine.step(now, Event::<String>::Cancel) {
                    assert!(batch.settle(index, outcome));
                    unit.reply_at = None;
                    unit.wake_at = None;
                }
            }
        }
        // what is due at this time
        for index in 0..units.len() {
            let mut step = None;
            if units[index].reply_at.map_or(false, |at| at <= now) {
                units[index].reply_at = None;
                let call = seen.calls_per_request[index] - 1;
                let answer = scripts[index][call].clone();
                step = Some(units[index].engine.step(now, Event::Reply(answer)));
            } else if units[index].wake_at.map_or(false, |at| at <= now) {
                units[index].wake_at = None;
                step = Some(units[index].engine.step(now, Event::<String>::Tick));
            }
            match step {
                None | Some(Step::Idle) => {}
                Some(Step::Send) => {
                    seen.calls += 1;
                    seen.calls_per_request[index] += 1;
                    units[index].reply_at = Some(now + latency[index]);
                }
                Some(Step::Wait(wait)) => units[index].wake_at = Some(now + wait as u128),
                Some(Step::Done(outcome)) => {
                    assert!(batch.settle(index, outcome));
                    seen.finished_in_order.push(index);
                }
            }
        }
        // the next request, if it may go
        if let Admission::Admit(index) = batch.poll(now) {
            assert_eq!(index, units.len());
            seen.admitted_at.push(now);
            let mut engine = RetryEngine::new(policy.clone(), None);
            assert_eq!(engine.step(now, Event::<String>::Begin), Step::Send);
            seen.calls += 1;
            seen.calls_per_request[index] += 1;
            units.push(Unit { engine, reply_at: Some(now + latency[index]), wake_at: None });
        }
        let in_flight = units.iter().filter(|unit| unit.reply_at.is_some()).count();
        seen.most_in_flight = seen.most_in_flight.max(in_flight);
        seen.most_active = seen.most_active.max(batch.active());
        now += 1;
    }
    seen.result = batch.finish();
    seen
}

fn scenario() -> Vec<Vec<Result<String, ExecutorError>>> {
    vec![
        // A succeeds at once
        vec![Ok("A".to_string())],
        // B fails every time
        vec![Err(failure(1, 1)), Err(failure(1, 2)), Err(failure(1, 3))],
        // C succeeds on its second attempt
        vec![Err(failure(2, 1)), Ok("C".to_string())],
    ]
}

#[test]
fn three_requests_with_retries_throttle_and_two_slots() {
    let policy = RetryPolicy::new(3, vec![10, 20]).unwrap();
    let throttle = ThrottleConfig::new(5, 2).unwrap();
    for latency in [[1u128, 1, 1], [3, 2, 4], [40, 1, 1], [1, 30, 2], [0, 0, 0]] {
        let seen = run(&scenario(), &latency, &policy, throttle, None);
        assert_eq!(
            seen.result,
            vec![
                Outcome::Success("A".to_string()),
                Outcome::Exhausted(failure(1, 3)),
                Outcome::Success("C".to_string()),
            ]
        );
        assert_eq!(seen.calls, 6);
        assert_eq!(seen.calls_per_request, vec![1, 3, 2]);
        assert!(seen.most_in_flight <= 2);
        assert!(seen.most_active <= 2);
        assert_eq!(seen.admitted_at.len(), 3);
        assert!(seen.admitted_at[1] - seen.admitted_at[0] >= 5);
        assert!(seen.admitted_at[2] - seen.admitted_at[1] >= 5);
    }
}

#[test]
fn replayed_scenario_gives_the_same_result() {
    let policy = RetryPolicy::new(3, vec![10, 20]).unwrap();
    let throttle = ThrottleConfig::new(5, 2).unwrap();
    let (result, sent) = replay_batch(&policy, throttle, scenario());
    assert_eq!(
        result,
        vec![
            Outcome::Success("A".to_string()),
            Outcome::Exhausted(failure(1, 3)),
            Outcome::Success("C".to_string()),
        ]
    );
    assert_eq!(sent, vec![1, 3, 2]);
    assert_eq!(sent.iter().map(|&n| n as usize).sum::<usize>(), 6);
    assert_eq!(tally(&result), Tally { succeeded: 2, exhausted: 1, cancelled: 0 });
}

#[test]
fn result_keeps_the_order_whichever_request_ends_first() {
    let policy = RetryPolicy::new(3, vec![10, 20]).unwrap();
    let throttle = ThrottleConfig::new(0, 4).unwrap();
    let scripts = vec![
        vec![Err(failure(0, 1)), Err(failure(0, 2)), Err(failure(0, 3))],
        vec![Ok("quick".to_string())],
    ];
    // the failing request ends last
    let seen = run(&scripts, &[5, 1], &policy, throttle, None);
    assert_eq!(seen.finished_in_order, vec![1, 0]);
    assert_eq!(seen.result[0], Outcome::Exhausted(failure(0, 3)));
    assert_eq!(seen.result[1], Outcome::Success("quick".to_string()));
    // the failing request ends first
    let seen = run(&scripts, &[0, 500], &policy, throttle, None);
    assert_eq!(seen.finished_in_order, vec![0, 1]);
    assert_eq!(seen.result[0], Outcome::Exhausted(failure(0, 3)));
    assert_eq!(seen.result[1], Outcome::Success("quick".to_string()));
}

#[test]
fn never_more_in_flight_than_max_concurrency() {
    let policy = RetryPolicy::new(2, vec![3]).unwrap();
    for max in 1..=4usize {
        let throttle = ThrottleConfig::new(1, max).unwrap();
        let scripts: Vec<Vec<Result<String, ExecutorError>>> = (0..9)
            .map(|i| vec![Err(failure(i, 1)), Ok(format!("r{}", i))])
            .collect();
        let seen = run(&scripts, &[6; 9], &policy, throttle, None);
        assert!(seen.most_in_flight <= max);
        assert_eq!(seen.most_active, max);
        assert_eq!(seen.calls, 18);
        for (i, outcome) in seen.result.iter().enumerate() {
            assert_eq!(outcome, &Outcome::Success(format!("r{}", i)));
        }
    }
}

#[test]
fn no_two_requests_start_closer_than_min_interval() {
    let policy = RetryPolicy::new(1, vec![]).unwrap();
    for interval in [0u64, 1, 5, 13] {
        let throttle = ThrottleConfig::new(interval, 3).unwrap();
        let scripts: Vec<Vec<Result<String, ExecutorError>>> =
            (0..7).map(|i| vec![Ok(format!("r{}", i))]).collect();
        let seen = run(&scripts, &[2; 7], &policy, throttle, None);
        assert_eq!(seen.admitted_at.len(), 7);
        for i in 0..7 {
            for j in i + 1..7 {
                assert!(seen.admitted_at[j] - seen.admitted_at[i] >= interval as u128);
            }
        }
    }
}

#[test]
fn batch_result_has_the_length_of_the_batch() {
    let policy = RetryPolicy::new(2, vec![1]).unwrap();
    let throttle = ThrottleConfig::new(2, 2).unwrap();
    // an empty batch is over at once
    let batch: Batch<String> = Batch::new(0, throttle);
    assert!(batch.is_done());
    assert_eq!(batch.finish(), vec![]);
    let (result, sent) = replay_batch(
        &policy,
        throttle,
        Vec::<Vec<Result<String, ExecutorError>>>::new(),
    );
    assert_eq!(result, vec![]);
    assert_eq!(sent, Vec::<u8>::new());
    // every request fails
    let scripts: Vec<Vec<Result<String, ExecutorError>>> = (0..5)
        .map(|i| vec![Err(failure(i, 1)), Err(failure(i, 2))])
        .collect();
    let seen = run(&scripts, &[1; 5], &policy, throttle, None);
    assert_eq!(seen.result.len(), 5);
    for (i, outcome) in seen.result.iter().enumerate() {
        assert_eq!(outcome, &Outcome::Exhausted(failure(i, 2)));
    }
    assert_eq!(seen.calls, 10);
}

#[test]
fn cancelled_batch_keeps_what_was_completed() {
    let policy = RetryPolicy::new(3, vec![10, 20]).unwrap();
    let throttle = ThrottleConfig::new(5, 2).unwrap();
    let scripts: Vec<Vec<Result<String, ExecutorError>>> = vec![
        vec![Ok("done".to_string())],
        vec![Err(failure(1, 1)), Err(failure(1, 2)), Err(failure(1, 3))],
        vec![Ok("late".to_string())],
        vec![Ok("never".to_string())],
    ];
    // at 12 the first request is done, the second waits for its second
    // attempt, the third is in flight, and the fourth has not been released
    let seen = run(&scripts, &[1, 1, 50, 1], &policy, throttle, Some(12));
    assert_eq!(
        seen.result,
        vec![
            Outcome::Success("done".to_string()),
            Outcome::Cancelled,
            Outcome::Cancelled,
            Outcome::Cancelled,
        ]
    );
    assert_eq!(seen.admitted_at, vec![0, 5, 10]);
    assert_eq!(seen.calls_per_request, vec![1, 1, 1, 0]);
    assert_eq!(tally(&seen.result), Tally { succeeded: 1, exhausted: 0, cancelled: 3 });
}

#[test]
fn batch_drops_outcomes_that_do_not_belong() {
    let throttle = ThrottleConfig::new(0, 2).unwrap();
    let mut batch: Batch<u32> = Batch::new(3, throttle);
    // nothing has been released yet
    assert!(!batch.settle(0, Outcome::Success(1)));
    assert_eq!(batch.poll(0), Admission::Admit(0));
    assert_eq!(batch.poll(0), Admission::Admit(1));
    assert_eq!(batch.poll(0), Admission::Saturated);
    assert_eq!(batch.active(), 2);
    // not released, and outside the batch
    assert!(!batch.settle(2, Outcome::Success(1)));
    assert!(!batch.settle(3, Outcome::Success(1)));
    assert_eq!(batch.active(), 2);
    assert!(batch.settle(1, Outcome::Success(11)));
    assert_eq!(batch.active(), 1);
    // settled already: the first outcome stays and the slot count too
    assert!(!batch.settle(1, Outcome::Success(12)));
    assert_eq!(batch.active(), 1);
    assert_eq!(batch.poll(0), Admission::Admit(2));
    assert!(batch.settle(0, Outcome::Cancelled));
    assert!(!batch.is_done());
    assert!(batch.settle(2, Outcome::Success(13)));
    assert!(batch.is_done());
    assert_eq!(
        batch.finish(),
        vec![Outcome::Cancelled, Outcome::Success(11), Outcome::Success(13)]
    );
}

#[test]
fn replay_batch_plays_each_request_against_its_own_record() {
    let policy = RetryPolicy::new(2, vec![1_000]).unwrap();
    let throttle = ThrottleConfig::new(u64::MAX, 1).unwrap();
    let scripts: Vec<Vec<Result<u32, ExecutorError>>> = vec![
        vec![Err(failure(0, 1)), Ok(1)],
        vec![],
        vec![Err(failure(2, 1)), Err(failure(2, 2)), Ok(3)],
        vec![Ok(4)],
        vec![Err(failure(4, 1))],
    ];
    let (result, sent) = replay_batch(&policy, throttle, scripts);
    assert_eq!(
        result,
        vec![
            Outcome::Success(1),
            Outcome::Cancelled,
            Outcome::Exhausted(failure(2, 2)),
            Outcome::Success(4),
            Outcome::Cancelled,
        ]
    );
    assert_eq!(sent, vec![2, 1, 2, 1, 2]);
}
