use poc_client::policy::ThrottleConfig;
use poc_client::scheduler::Admission;
use poc_client::scheduler::Scheduler;

#[test]
fn admissions_follow_the_order_of_the_batch() {
    let mut scheduler = Scheduler::new(4, ThrottleConfig::new(0, 10).unwrap());
    assert_eq!(scheduler.poll(0), Admission::Admit(0));
    assert_eq!(scheduler.poll(0), Admission::Admit(1));
    assert_eq!(scheduler.poll(0), Admission::Admit(2));
    assert_eq!(scheduler.poll(0), Admission::Admit(3));
    assert_eq!(scheduler.poll(0), Admission::Closed);
    assert_eq!(scheduler.active(), 4);
    assert!(!scheduler.is_done());
}

#[test]
fn admissions_keep_the_minimum_interval() {
    let interval = 5u64;
    let mut scheduler = Scheduler::new(6, ThrottleConfig::new(interval, 100).unwrap());
    let mut admitted_at = Vec::new();
    // asked every millisecond, also with readings that lag behind
    for now in 0..40u128 {
        let reading = if now % 7 == 3 { now - 3 } else { now };
        match scheduler.poll(reading) {
            Admission::Admit(index) => {
                assert_eq!(index, admitted_at.len());
                admitted_at.push(scheduler.load().clock);
            }
            Admission::Throttled(wait) => {
                assert!(wait >= 1 && wait <= interval);
            }
            Admission::Closed => assert_eq!(admitted_at.len(), 6),
            Admission::Saturated => panic!("the batch never runs a hundred at once"),
        }
    }
    assert_eq!(admitted_at.len(), 6);
    for i in 0..admitted_at.len() {
        for j in i + 1..admitted_at.len() {
            assert!(admitted_at[j] - admitted_at[i] >= interval as u128);
        }
    }
    // the reading at 10 lags behind, so the third admission comes at 11
    assert_eq!(admitted_at, vec![0, 5, 11, 16, 21, 26]);
}

#[test]
fn throttled_names_the_rest_of_the_interval() {
    let mut scheduler = Scheduler::new(3, ThrottleConfig::new(5, 3).unwrap());
    assert_eq!(scheduler.poll(100), Admission::Admit(0));
    assert_eq!(scheduler.poll(100), Admission::Throttled(5));
    assert_eq!(scheduler.poll(101), Admission::Throttled(4));
    assert_eq!(scheduler.poll(104), Admission::Throttled(1));
    assert_eq!(scheduler.poll(105), Admission::Admit(1));
    assert_eq!(scheduler.poll(1000), Admission::Admit(2));
}

#[test]
fn no_more_run_at_once_than_the_throttle_allows() {
    let mut scheduler = Scheduler::new(5, ThrottleConfig::new(0, 2).unwrap());
    assert_eq!(scheduler.poll(0), Admission::Admit(0));
    assert_eq!(scheduler.poll(0), Admission::Admit(1));
    assert_eq!(scheduler.active(), 2);
    // the interval is long over, but no slot is free
    assert_eq!(scheduler.poll(1_000_000), Admission::Saturated);
    assert_eq!(scheduler.active(), 2);
    assert!(scheduler.release());
    assert_eq!(scheduler.active(), 1);
    assert_eq!(scheduler.poll(1_000_000), Admission::Admit(2));
    assert_eq!(scheduler.poll(1_000_000), Admission::Saturated);
    assert!(scheduler.release());
    assert!(scheduler.release());
    assert_eq!(scheduler.active(), 0);
    // nothing runs: a further release is refused and changes nothing
    assert!(!scheduler.release());
    assert_eq!(scheduler.active(), 0);
    assert_eq!(scheduler.poll(1_000_000), Admission::Admit(3));
    assert_eq!(scheduler.poll(1_000_000), Admission::Admit(4));
    assert_eq!(scheduler.poll(1_000_000), Admission::Closed);
    assert!(!scheduler.is_done());
    assert!(scheduler.release());
    assert!(scheduler.release());
    assert!(scheduler.is_done());
}

#[test]
fn saturation_and_interval_both_hold_back() {
    let mut scheduler = Scheduler::new(3, ThrottleConfig::new(10, 1).unwrap());
    assert_eq!(scheduler.poll(0), Admission::Admit(0));
    // both limits stand in the way
    assert_eq!(scheduler.poll(3), Admission::Saturated);
    assert!(scheduler.release());
    // the slot is free, the interval is not over
    assert_eq!(scheduler.poll(4), Admission::Throttled(6));
    assert_eq!(scheduler.poll(10), Admission::Admit(1));
    // the interval is over, the slot is taken
    assert_eq!(scheduler.poll(30), Admission::Saturated);
    assert!(scheduler.release());
    assert_eq!(scheduler.poll(30), Admission::Admit(2));
}

#[test]
fn empty_batch_is_done_at_once() {
    let mut scheduler = Scheduler::new(0, ThrottleConfig::new(5, 2).unwrap());
    assert!(scheduler.is_done());
    assert_eq!(scheduler.poll(0), Admission::Closed);
    assert!(scheduler.is_done());
}

#[test]
fn cancelled_batch_admits_nothing_more() {
    let mut scheduler = Scheduler::new(3, ThrottleConfig::new(0, 2).unwrap());
    assert_eq!(scheduler.poll(0), Admission::Admit(0));
    scheduler.cancel();
    assert_eq!(scheduler.poll(10), Admission::Closed);
    assert!(scheduler.load().cancelled);
    assert_eq!(scheduler.load().admitted, 1);
    // what runs is still waited for
    assert!(!scheduler.is_done());
    assert!(scheduler.release());
    assert!(scheduler.is_done());
}
