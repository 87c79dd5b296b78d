use poc_client::collector::collect;
use poc_client::collector::Collector;
use poc_client::outcome::ExecutorError;
use poc_client::outcome::Outcome;

fn exhausted(detail: &str) -> Outcome<u32> {
    Outcome::Exhausted(ExecutorError::Remote(503, detail.as_bytes().to_vec()))
}

#[test]
fn result_follows_the_batch_not_the_arrival() {
    let expected = vec![exhausted("first"), Outcome::Success(1), Outcome::Success(2)];
    let orders: [[usize; 3]; 6] = [
        [0, 1, 2],
        [0, 2, 1],
        [1, 0, 2],
        [1, 2, 0],
        [2, 0, 1],
        [2, 1, 0],
    ];
    for order in orders {
        let stream: Vec<(usize, Outcome<u32>)> =
            order.iter().map(|&i| (i, expected[i].clone())).collect();
        assert_eq!(collect(3, stream), expected);
    }
}

#[test]
fn result_has_one_entry_per_request() {
    // nothing arrived
    assert_eq!(
        collect(3, Vec::<(usize, Outcome<u32>)>::new()),
        vec![Outcome::Cancelled, Outcome::Cancelled, Outcome::Cancelled]
    );
    // an empty batch
    assert_eq!(collect(0, Vec::<(usize, Outcome<u32>)>::new()), vec![]);
    assert_eq!(collect(0, vec![(0, Outcome::Success(1u32))]), vec![]);
    // every request failed
    let stream = vec![(1, exhausted("b")), (0, exhausted("a"))];
    assert_eq!(collect(2, stream), vec![exhausted("a"), exhausted("b")]);
    // some are missing
    let stream = vec![(3, Outcome::Success(3u32)), (1, exhausted("b"))];
    assert_eq!(
        collect(4, stream),
        vec![Outcome::Cancelled, exhausted("b"), Outcome::Cancelled, Outcome::Success(3)]
    );
}

#[test]
fn first_outcome_of_a_request_stays() {
    let stream = vec![
        (1, Outcome::Success(10u32)),
        (1, Outcome::Success(11)),
        (0, Outcome::Cancelled),
        (0, Outcome::Success(12)),
        (7, Outcome::Success(13)),
    ];
    assert_eq!(collect(2, stream), vec![Outcome::Cancelled, Outcome::Success(10)]);
}

#[test]
fn collector_takes_outcomes_one_by_one() {
    let mut collector: Collector<u32> = Collector::new(3);
    assert_eq!(collector.expected(), 3);
    assert!(!collector.is_complete());
    assert!(!collector.holds(2));
    assert!(collector.accept(2, Outcome::Success(2)));
    assert!(collector.holds(2));
    // a second outcome for the same request is dropped
    assert!(!collector.accept(2, Outcome::Success(20)));
    // so is one for a request outside the batch
    assert!(!collector.accept(3, Outcome::Success(3)));
    assert!(!collector.holds(3));
    assert!(collector.accept(0, exhausted("a")));
    assert!(!collector.is_complete());
    assert!(collector.accept(1, Outcome::Cancelled));
    assert!(collector.is_complete());
    assert_eq!(
        collector.finish(),
        vec![exhausted("a"), Outcome::Cancelled, Outcome::Success(2)]
    );
}

#[test]
fn collector_of_an_empty_batch_is_complete() {
    let collector: Collector<u32> = Collector::new(0);
    assert!(collector.is_complete());
    assert_eq!(collector.finish(), vec![]);
}
