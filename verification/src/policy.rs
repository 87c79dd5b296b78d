use vstd::prelude::*;

verus! {

/// A policy that cannot be used: refused when it is built, before any
/// request is sent.
#[derive(Debug, Clone, Copy, PartialEq, Eq, Structural)]
pub enum ConfigurationError {
    /// The policy allows no attempt at all.
    ZeroAttempts,
    /// The backoff schedule has fewer entries than there can be retries.
    ScheduleTooShort,
    /// The throttle allows no request in flight.
    ZeroConcurrency,
}

/// How often a request is attempted and how long to wait between
/// attempts. Times are in milliseconds.
#[derive(Debug)]
pub struct RetryPolicy {
    max_attempts: u8,
    backoff_schedule: Vec<u64>,
}

impl RetryPolicy {
    /// The largest number of attempts made for one request.
    pub closed spec fn spec_max_attempts(&self) -> u8 {
        self.max_attempts
    }

    /// The waits between attempts: entry `k` is the wait after the
    /// failure of attempt `k + 1`.
    pub closed spec fn schedule(&self) -> Seq<u64> {
        self.backoff_schedule@
    }

    /// At least one attempt, and a wait for every retry there can be.
    #[verifier::type_invariant]
    pub open spec fn wf(&self) -> bool {
        &&& self.spec_max_attempts() >= 1
        &&& self.schedule().len() >= self.spec_max_attempts() - 1
    }

    /// Builds a policy, refusing one without attempts or with a schedule
    /// that leaves a retry without its wait.
    pub fn new(max_attempts: u8, backoff_schedule: Vec<u64>) -> (r: Result<RetryPolicy, ConfigurationError>)
        ensures
            match r {
                Ok(p) => {
                    &&& max_attempts >= 1
                    &&& backoff_schedule@.len() >= max_attempts - 1
                    &&& p.wf()
                    &&& p.spec_max_attempts() == max_attempts
                    &&& p.schedule() == backoff_schedule@
                },
                Err(ConfigurationError::ZeroAttempts) => max_attempts == 0,
                Err(ConfigurationError::ScheduleTooShort) => {
                    max_attempts >= 1 && backoff_schedule@.len() < max_attempts - 1
                },
                Err(ConfigurationError::ZeroConcurrency) => false,
            },
    {
        if max_attempts == 0 {
            Err(ConfigurationError::ZeroAttempts)
        } else if backoff_schedule.len() < (max_attempts - 1) as usize {
            Err(ConfigurationError::ScheduleTooShort)
        } else {
            Ok(RetryPolicy { max_attempts, backoff_schedule })
        }
    }

    /// The largest number of attempts made for one request.
    #[verifier::when_used_as_spec(spec_max_attempts)]
    pub fn max_attempts(&self) -> (n: u8)
        ensures
            n == self.spec_max_attempts(),
            n >= 1,
    {
        proof {
            use_type_invariant(self);
        }
        self.max_attempts
    }

    /// The waits between attempts, as given.
    pub fn backoff_schedule(&self) -> (waits: &Vec<u64>)
        ensures
            waits@ == self.schedule(),
    {
        &self.backoff_schedule
    }

    /// The wait that follows the failure of attempt `attempt`, if the
    /// policy allows another attempt after it.
    pub fn backoff_after(&self, attempt: u8) -> (wait: Option<u64>)
        ensures
            self.wf(),
            wait == if 1 <= attempt < self.spec_max_attempts() {
                Some(self.schedule()[attempt - 1])
            } else {
                None
            },
    {
        proof {
            use_type_invariant(self);
        }
        if 1 <= attempt && attempt < self.max_attempts {
            Some(self.backoff_schedule[(attempt - 1) as usize])
        } else {
            None
        }
    }
}

impl Clone for RetryPolicy {
    fn clone(&self) -> (copy: RetryPolicy)
        ensures
            copy.wf(),
            copy.spec_max_attempts() == self.spec_max_attempts(),
            copy.schedule() == self.schedule(),
    {
        proof {
            use_type_invariant(self);
        }
        RetryPolicy {
            max_attempts: self.max_attempts,
            backoff_schedule: self.backoff_schedule.clone(),
        }
    }
}

/// How densely a batch may be sent. Times are in milliseconds.
#[derive(Debug, Clone, Copy)]
pub struct ThrottleConfig {
    min_interval: u64,
    max_concurrency: usize,
}

impl ThrottleConfig {
    /// The least time between two admissions.
    pub closed spec fn spec_min_interval(&self) -> u64 {
        self.min_interval
    }

    /// The largest number of requests in flight at once.
    pub closed spec fn spec_max_concurrency(&self) -> usize {
        self.max_concurrency
    }

    /// At least one request may be in flight.
    #[verifier::type_invariant]
    pub open spec fn wf(&self) -> bool {
        self.spec_max_concurrency() >= 1
    }

    /// Builds a throttle, refusing one that lets nothing through.
    pub fn new(min_interval: u64, max_concurrency: usize) -> (r: Result<ThrottleConfig, ConfigurationError>)
        ensures
            match r {
                Ok(t) => {
                    &&& max_concurrency >= 1
                    &&& t.wf()
                    &&& t.spec_min_interval() == min_interval
                    &&& t.spec_max_concurrency() == max_concurrency
                },
                Err(e) => max_concurrency == 0 && e == ConfigurationError::ZeroConcurrency,
            },
    {
        if max_concurrency == 0 {
            Err(ConfigurationError::ZeroConcurrency)
        } else {
            Ok(ThrottleConfig { min_interval, max_concurrency })
        }
    }

    /// The least time between two admissions.
    #[verifier::when_used_as_spec(spec_min_interval)]
    pub fn min_interval(&self) -> (d: u64)
        ensures
            d == self.spec_min_interval(),
        no_unwind
    {
        self.min_interval
    }

    /// The largest number of requests in flight at once.
    #[verifier::when_used_as_spec(spec_max_concurrency)]
    pub fn max_concurrency(&self) -> (n: usize)
        ensures
            n == self.spec_max_concurrency(),
            n >= 1,
        no_unwind
    {
        proof {
            use_type_invariant(self);
        }
        self.max_concurrency
    }
}

} // verus!
