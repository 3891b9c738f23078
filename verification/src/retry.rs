//! Exponential-backoff retry scheduling for API requests.
//!
//! The request itself and the sleeping happen outside the library; after
//! every attempt the caller reports whether it succeeded and learns whether
//! to stop or to wait and try again.

use vstd::prelude::*;

verus! {

/// Retry configuration for resilience.
#[derive(Debug, Clone, Copy, PartialEq, Eq, Structural)]
pub struct RetryConfig {
    pub max_retries: u32,
    pub initial_backoff_ms: u64,
    pub max_backoff_ms: u64,
}

impl Default for RetryConfig {
    /// Three retries, starting at 100 ms and never waiting more than 5 s.
    fn default() -> (config: Self)
        ensures
            config.max_retries == 3,
            config.initial_backoff_ms == 100,
            config.max_backoff_ms == 5000,
    {
        RetryConfig { max_retries: 3, initial_backoff_ms: 100, max_backoff_ms: 5000 }
    }
}

/// `b` doubled, but no more than `cap`.
pub open spec fn capped_double(b: int, cap: int) -> int {
    if 2 * b <= cap {
        2 * b
    } else {
        cap
    }
}

/// The wait before the attempt that follows the `k`-th retry decision:
/// the initial backoff, doubled after every retry and capped at the maximum.
pub open spec fn backoff_after(config: RetryConfig, k: nat) -> int
    decreases k,
{
    if k == 0 {
        config.initial_backoff_ms as int
    } else {
        capped_double(backoff_after(config, (k - 1) as nat), config.max_backoff_ms as int)
    }
}

/// `a` doubled `k` times.
pub open spec fn doubled(a: int, k: nat) -> int
    decreases k,
{
    if k == 0 {
        a
    } else {
        2 * doubled(a, (k - 1) as nat)
    }
}

/// What the caller does after an attempt.
#[derive(Debug, Clone, Copy, PartialEq, Eq, Structural)]
pub enum RetryAction {
    /// Stop and hand back the outcome of the last attempt.
    Finish,
    /// Wait this many milliseconds, then try again.
    Wait { backoff_ms: u64 },
}

/// Progress of one retried request.
#[derive(Debug, Clone, Copy, PartialEq, Eq, Structural)]
pub struct RetryState {
    pub config: RetryConfig,
    /// Retries granted so far.
    pub retries: u32,
    /// The wait granted with the next retry.
    pub backoff_ms: u64,
}

/// The state after `k` failed attempts that each were granted a retry.
pub open spec fn after_failures(config: RetryConfig, k: nat) -> RetryState {
    RetryState { config, retries: k as u32, backoff_ms: backoff_after(config, k) as u64 }
}

/// One decision: a success, or a failure with no retries left, finishes;
/// any other failure waits the current backoff and doubles it up to the cap.
pub open spec fn retry_step(s: RetryState, succeeded: bool) -> (RetryAction, RetryState) {
    if succeeded || s.retries >= s.config.max_retries {
        (RetryAction::Finish, s)
    } else {
        (
            RetryAction::Wait { backoff_ms: s.backoff_ms },
            RetryState {
                config: s.config,
                retries: (s.retries + 1) as u32,
                backoff_ms: capped_double(s.backoff_ms as int, s.config.max_backoff_ms as int)
                    as u64,
            },
        )
    }
}

/// The number of waits granted while the outcomes in `outcomes` come in,
/// up to the first decision that finishes.
pub open spec fn waits_in_run(s: RetryState, outcomes: Seq<bool>) -> nat
    decreases outcomes.len(),
{
    if outcomes.len() == 0 {
        0
    } else {
        let (action, next) = retry_step(s, outcomes[0]);
        match action {
            RetryAction::Finish => 0,
            RetryAction::Wait { .. } => 1 + waits_in_run(next, outcomes.drop_first()),
        }
    }
}

impl RetryState {
    /// The state is one reached from the start by retry decisions.
    pub open spec fn well_formed(self) -> bool {
        &&& self.retries <= self.config.max_retries
        &&& self.backoff_ms == backoff_after(self.config, self.retries as nat)
    }

    /// The state before the first attempt.
    pub fn new(config: RetryConfig) -> (s: RetryState)
        ensures
            s == after_failures(config, 0),
            s.well_formed(),
    {
        RetryState { config, retries: 0, backoff_ms: config.initial_backoff_ms }
    }

    /// Records the outcome of an attempt and says what to do next.
    pub fn after_attempt(&mut self, succeeded: bool) -> (action: RetryAction)
        requires
            succeeded || old(self).retries >= old(self).config.max_retries || old(
                self,
            ).backoff_ms <= u64::MAX / 2,
        ensures
            (action, *final(self)) == retry_step(*old(self), succeeded),
    {
        if succeeded || self.retries >= self.config.max_retries {
            RetryAction::Finish
        } else {
            let wait = self.backoff_ms;
            self.retries = self.retries + 1;
            let doubled_wait = self.backoff_ms * 2;
            self.backoff_ms = if doubled_wait <= self.config.max_backoff_ms {
                doubled_wait
            } else {
                self.config.max_backoff_ms
            };
            RetryAction::Wait { backoff_ms: wait }
        }
    }
}

/// Every backoff fits in a `u64`, and from the first retry on it is at most
/// the configured maximum.
pub proof fn lemma_backoff_bounds(config: RetryConfig, k: nat)
    ensures
        0 <= backoff_after(config, k) <= u64::MAX,
        k >= 1 ==> backoff_after(config, k) <= config.max_backoff_ms,
    decreases k,
{
    if k > 0 {
        lemma_backoff_bounds(config, (k - 1) as nat);
    }
}

/// After `k >= 1` retries the backoff is the initial backoff doubled `k`
/// times, capped at the maximum.
pub proof fn lemma_backoff_closed_form(config: RetryConfig, k: nat)
    requires
        k >= 1,
    ensures
        backoff_after(config, k) == if doubled(config.initial_backoff_ms as int, k)
            <= config.max_backoff_ms {
            doubled(config.initial_backoff_ms as int, k)
        } else {
            config.max_backoff_ms as int
        },
    decreases k,
{
    let a = config.initial_backoff_ms as int;
    assert(doubled(a, k) == 2 * doubled(a, (k - 1) as nat));
    if k == 1 {
        assert(backoff_after(config, 0) == a);
        assert(doubled(a, 0) == a);
    } else {
        lemma_backoff_closed_form(config, (k - 1) as nat);
        lemma_doubled_nonneg(a, (k - 1) as nat);
    }
}

proof fn lemma_doubled_nonneg(a: int, k: nat)
    requires
        a >= 0,
    ensures
        doubled(a, k) >= a,
    decreases k,
{
    if k > 0 {
        lemma_doubled_nonneg(a, (k - 1) as nat);
    }
}

/// A retry decision keeps the state well formed; a wait grants exactly one
/// more retry, and finishing leaves the state as it was.
pub proof fn lemma_step_keeps_well_formed(s: RetryState, succeeded: bool)
    requires
        s.well_formed(),
    ensures
        retry_step(s, succeeded).1.well_formed(),
        retry_step(s, succeeded).0 is Finish ==> retry_step(s, succeeded).1 == s,
        retry_step(s, succeeded).0 is Wait ==> retry_step(s, succeeded).1.retries == s.retries + 1,
        retry_step(s, succeeded).0 is Wait ==> retry_step(s, succeeded).1 == after_failures(
            s.config,
            (s.retries + 1) as nat,
        ),
{
    lemma_backoff_bounds(s.config, (s.retries + 1) as nat);
}

/// A success always finishes, and so does a failure once `max_retries`
/// retries have been granted.
pub proof fn lemma_finishes(s: RetryState, succeeded: bool)
    requires
        succeeded || s.retries >= s.config.max_retries,
    ensures
        retry_step(s, succeeded).0 == RetryAction::Finish,
{
}

/// The `k`-th consecutive failure (counting from 0), while retries remain,
/// waits `backoff_after(config, k)` milliseconds.
pub proof fn lemma_failure_schedule(config: RetryConfig, k: nat)
    requires
        k < config.max_retries,
    ensures
        retry_step(after_failures(config, k), false) == (
            RetryAction::Wait { backoff_ms: backoff_after(config, k) as u64 },
            after_failures(config, k + 1),
        ),
{
    lemma_backoff_bounds(config, k);
    lemma_backoff_bounds(config, k + 1);
}

/// However the attempts turn out, a request started afresh is retried at
/// most `max_retries` times, so it is attempted at most `max_retries + 1`
/// times.
pub proof fn lemma_retries_bounded(config: RetryConfig, outcomes: Seq<bool>)
    ensures
        waits_in_run(after_failures(config, 0), outcomes) <= config.max_retries,
{
    lemma_waits_bounded(after_failures(config, 0), outcomes);
}

proof fn lemma_waits_bounded(s: RetryState, outcomes: Seq<bool>)
    requires
        s.well_formed(),
    ensures
        waits_in_run(s, outcomes) <= s.config.max_retries - s.retries,
    decreases outcomes.len(),
{
    if outcomes.len() > 0 {
        lemma_step_keeps_well_formed(s, outcomes[0]);
        let (action, next) = retry_step(s, outcomes[0]);
        if action is Wait {
            lemma_waits_bounded(next, outcomes.drop_first());
        }
    }
}

} // verus!
