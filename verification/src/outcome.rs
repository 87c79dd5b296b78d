use vstd::prelude::*;

verus! {

/// Why one exchange with the remote side failed.
#[derive(Debug, Clone, PartialEq, Eq)]
pub enum ExecutorError {
    /// The exchange itself failed: no connection, or no answer in time.
    Transport(String),
    /// The remote side answered with a status outside the 2xx range. Holds
    /// the status and the beginning of the body.
    Remote(u16, Vec<u8>),
    /// The answer arrived with a success status, but its body did not have
    /// the expected shape.
    Parse(String),
}

/// The final result of one request's retry sequence.
#[derive(Debug, Clone, PartialEq, Eq)]
pub enum Outcome<T> {
    /// An attempt succeeded with this value.
    Success(T),
    /// Every attempt the policy allows has failed; holds the last failure.
    Exhausted(ExecutorError),
    /// The run was abandoned, by the caller or by its deadline.
    Cancelled,
}

/// The outcomes of a batch: entry `i` belongs to request `i`.
pub type BatchResult<T> = Vec<Outcome<T>>;

/// How many requests of a batch ended in which way.
#[derive(Debug, Clone, Copy, PartialEq, Eq, Structural)]
pub struct Tally {
    pub succeeded: usize,
    pub exhausted: usize,
    pub cancelled: usize,
}

/// The tally of a sequence of outcomes.
pub open spec fn tally_of<T>(outcomes: Seq<Outcome<T>>) -> (nat, nat, nat)
    decreases outcomes.len(),
{
    if outcomes.len() == 0 {
        (0, 0, 0)
    } else {
        let (succeeded, exhausted, cancelled) = tally_of(outcomes.drop_last());
        match outcomes.last() {
            Outcome::Success(_) => (succeeded + 1, exhausted, cancelled),
            Outcome::Exhausted(_) => (succeeded, exhausted + 1, cancelled),
            Outcome::Cancelled => (succeeded, exhausted, cancelled + 1),
        }
    }
}

/// Every outcome is counted once.
pub proof fn law_tally_total<T>(outcomes: Seq<Outcome<T>>)
    ensures
        tally_of(outcomes).0 + tally_of(outcomes).1 + tally_of(outcomes).2 == outcomes.len(),
    decreases outcomes.len(),
{
    if outcomes.len() > 0 {
        law_tally_total(outcomes.drop_last());
    }
}

/// Counts the outcomes of a batch by kind.
pub fn tally<T>(result: &BatchResult<T>) -> (t: Tally)
    ensures
        t.succeeded == tally_of(result@).0,
        t.exhausted == tally_of(result@).1,
        t.cancelled == tally_of(result@).2,
        t.succeeded + t.exhausted + t.cancelled == result@.len(),
{
    let mut t = Tally { succeeded: 0, exhausted: 0, cancelled: 0 };
    let mut i: usize = 0;
    while i < result.len()
        invariant
            i <= result@.len(),
            t.succeeded == tally_of(result@.take(i as int)).0,
            t.exhausted == tally_of(result@.take(i as int)).1,
            t.cancelled == tally_of(result@.take(i as int)).2,
        decreases result@.len() - i,
    {
        proof {
            law_tally_total(result@.take(i as int));
            assert(result@.take(i + 1).drop_last() == result@.take(i as int));
        }
        match &result[i] {
            Outcome::Success(_) => {
                t.succeeded = t.succeeded + 1;
            },
            Outcome::Exhausted(_) => {
                t.exhausted = t.exhausted + 1;
            },
            Outcome::Cancelled => {
                t.cancelled = t.cancelled + 1;
            },
        }
        i = i + 1;
    }
    proof {
        assert(result@.take(result@.len() as int) == result@);
        law_tally_total(result@);
    }
    t
}

} // verus!
