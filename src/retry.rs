use vstd::prelude::*;

use crate::time::{Duration, MICROS_PER_MILLI, MICROS_PER_SEC};

verus! {

/// The log crate's severity levels, carried through unchanged.
#[verifier::external_type_specification]
#[verifier::external_body]
pub struct ExLevel(log::Level);

/// Default pause between two attempts, in milliseconds.
pub const DEFAULT_INTERVAL_MS: u64 = 500;

/// Default time budget for all retries, in seconds.
pub const DEFAULT_MAX_ELAPSED_SECS: u64 = 5;

/// Why a retry configuration was refused.
#[derive(Clone, Copy, Debug, PartialEq, Eq, Structural)]
pub enum ConfigError {
    /// The pause between attempts must be longer than zero.
    ZeroInterval,
}

/// The settings of a retry policy, as plain values.
pub struct BackoffView {
    /// Pause between attempts, in microseconds.
    pub interval: nat,
    /// Time budget in microseconds, or `None` for no budget at all.
    pub max_elapsed: Option<nat>,
    /// Severity at which each failed attempt is reported, or `None` to stay silent.
    pub log_level: Option<log::Level>,
}

/// How many retries a configuration allows: the budget divided by the
/// interval, rounded down; `None` when there is no budget.
pub open spec fn counter_limit_of(v: BackoffView) -> Option<nat> {
    match v.max_elapsed {
        Some(m) => Some(m / v.interval),
        None => None,
    }
}

/// A fixed-interval retry policy around the fallible operation `op`.
///
/// The operation is attempted; after a failure, while retries are left, the
/// caller waits for `interval` and attempts again. A success ends the run at
/// once, with no further pause.
pub struct Backoff<OP> {
    log_level: Option<log::Level>,
    op: OP,
    interval: Duration,
    max_elapsed_time: Option<Duration>,
}

impl<OP> View for Backoff<OP> {
    type V = BackoffView;

    closed spec fn view(&self) -> BackoffView {
        BackoffView {
            interval: self.interval@,
            max_elapsed: match self.max_elapsed_time {
                Some(m) => Some(m@),
                None => None,
            },
            log_level: self.log_level,
        }
    }
}

impl<OP> Backoff<OP> {
    /// The operation that the policy retries.
    pub closed spec fn op(&self) -> OP {
        self.op
    }

    /// A policy is well formed when its interval is longer than zero.
    pub open spec fn wf(&self) -> bool {
        self@.interval > 0
    }

    /// A policy with the defaults: a 500 ms interval, a 5 s budget, silent.
    pub fn new(op: OP) -> (b: Self)
        ensures
            b.wf(),
            b.op() == op,
            b@.interval == DEFAULT_INTERVAL_MS * MICROS_PER_MILLI,
            b@.max_elapsed == Some((DEFAULT_MAX_ELAPSED_SECS * MICROS_PER_SEC) as nat),
            b@.log_level is None,
    {
        Backoff {
            log_level: None,
            op,
            interval: Duration::from_millis(DEFAULT_INTERVAL_MS),
            max_elapsed_time: Some(Duration::from_secs(DEFAULT_MAX_ELAPSED_SECS)),
        }
    }

    /// The same policy, reporting failed attempts at `log_level`.
    pub fn with_log_level(self, log_level: Option<log::Level>) -> (b: Self)
        requires
            self.wf(),
        ensures
            b.wf(),
            b.op() == self.op(),
            b@ == (BackoffView { log_level, ..self@ }),
    {
        let mut b = self;
        b.set_log_level(log_level);
        b
    }

    /// The same policy with another interval; a zero interval is refused.
    pub fn with_interval(self, interval: Duration) -> (r: Result<Self, ConfigError>)
        requires
            self.wf(),
        ensures
            interval@ == 0 ==> r == Err::<Self, ConfigError>(ConfigError::ZeroInterval),
            interval@ != 0 ==> (r matches Ok(b) && b.wf() && b.op() == self.op()
                && b@ == (BackoffView { interval: interval@, ..self@ })),
    {
        let mut b = self;
        match b.set_interval(interval) {
            Ok(()) => Ok(b),
            Err(e) => Err(e),
        }
    }

    /// The same policy with another time budget; `None` means no budget.
    pub fn with_max_elapsed_time(self, max_elapsed_time: Option<Duration>) -> (b: Self)
        requires
            self.wf(),
        ensures
            b.wf(),
            b.op() == self.op(),
            b@ == (BackoffView {
                max_elapsed: match max_elapsed_time {
                    Some(m) => Some(m@),
                    None => None,
                },
                ..self@
            }),
    {
        let mut b = self;
        b.set_max_elapsed_time(max_elapsed_time);
        b
    }

    /// Report failed attempts at `log_level`, or stay silent with `None`.
    pub fn set_log_level(&mut self, log_level: Option<log::Level>)
        requires
            old(self).wf(),
        ensures
            final(self).wf(),
            final(self).op() == old(self).op(),
            final(self)@ == (BackoffView { log_level, ..old(self)@ }),
    {
        self.log_level = log_level;
    }

    /// Set the pause between attempts. A zero interval is refused and the
    /// policy is left as it was.
    pub fn set_interval(&mut self, interval: Duration) -> (r: Result<(), ConfigError>)
        requires
            old(self).wf(),
        ensures
            final(self).wf(),
            final(self).op() == old(self).op(),
            interval@ == 0 ==> r == Err::<(), ConfigError>(ConfigError::ZeroInterval)
                && final(self)@ == old(self)@,
            interval@ != 0 ==> r == Ok::<(), ConfigError>(())
                && final(self)@ == (BackoffView { interval: interval@, ..old(self)@ }),
    {
        if interval.is_zero() {
            Err(ConfigError::ZeroInterval)
        } else {
            self.interval = interval;
            Ok(())
        }
    }

    /// Set the time budget for all retries; `None` means no budget.
    pub fn set_max_elapsed_time(&mut self, max_elapsed_time: Option<Duration>)
        requires
            old(self).wf(),
        ensures
            final(self).wf(),
            final(self).op() == old(self).op(),
            final(self)@ == (BackoffView {
                max_elapsed: match max_elapsed_time {
                    Some(m) => Some(m@),
                    None => None,
                },
                ..old(self)@
            }),
    {
        self.max_elapsed_time = max_elapsed_time;
    }
}

/// What one attempt of a run led to.
pub enum StepKind {
    /// The attempt failed and another one follows after a pause.
    Retried,
    /// The attempt succeeded; the run is over.
    Succeeded,
    /// The attempt failed and no retry is left; the run is over.
    GaveUp,
}

/// The progress of a run: retries made so far and the most it may make.
pub struct RunState {
    pub retries: nat,
    pub limit: Option<nat>,
}

/// Whether a run with `retries` retries behind it may retry once more.
pub open spec fn may_retry(s: RunState) -> bool {
    match s.limit {
        Some(l) => s.retries < l,
        None => true,
    }
}

/// One more retry on the counter, which stays put at the top of `u64`.
pub open spec fn count_retry(n: nat) -> nat {
    if n < u64::MAX {
        n + 1
    } else {
        n
    }
}

/// The next state of a run and what happened, after an attempt that
/// `succeeded` or not.
pub open spec fn step(s: RunState, succeeded: bool) -> (RunState, StepKind) {
    if succeeded {
        (s, StepKind::Succeeded)
    } else if may_retry(s) {
        (RunState { retries: count_retry(s.retries), ..s }, StepKind::Retried)
    } else {
        (s, StepKind::GaveUp)
    }
}

/// What a run from `s` does when its attempts turn out as `outcomes`
/// (`true` for a success), up to the attempt that ends it.
pub open spec fn run_trace(s: RunState, outcomes: Seq<bool>) -> Seq<StepKind>
    decreases outcomes.len(),
{
    if outcomes.len() == 0 {
        seq![]
    } else {
        let (next, kind) = step(s, outcomes[0]);
        if kind is Retried {
            seq![kind] + run_trace(next, outcomes.drop_first())
        } else {
            seq![kind]
        }
    }
}

/// `n` failed attempts.
pub open spec fn failures(n: nat) -> Seq<bool> {
    Seq::new(n, |i: int| false)
}

/// `n` retries, each after a failure.
pub open spec fn retried(n: nat) -> Seq<StepKind> {
    Seq::new(n, |i: int| StepKind::Retried)
}

/// The decision an attempt leads to.
pub enum RetryStep<T, E> {
    /// The run is over with this result: the success, or the last error.
    Done(Result<T, E>),
    /// Report `error` (at `log_level`, if any) as failed attempt number
    /// `attempt`, pause for `interval`, then attempt again.
    Wait { error: E, attempt: u64, interval: Duration, log_level: Option<log::Level> },
}

/// The kind of step a decision stands for.
pub open spec fn kind_of<T, E>(r: RetryStep<T, E>) -> StepKind {
    match r {
        RetryStep::Done(Ok(_)) => StepKind::Succeeded,
        RetryStep::Done(Err(_)) => StepKind::GaveUp,
        RetryStep::Wait { .. } => StepKind::Retried,
    }
}

/// One run of a retry policy: it is told how each attempt went and decides
/// whether to pause and retry or to finish.
pub struct RetryRun {
    retries: u64,
    limit: Option<u64>,
    interval: Duration,
    log_level: Option<log::Level>,
}

impl View for RetryRun {
    type V = RunState;

    closed spec fn view(&self) -> RunState {
        RunState {
            retries: self.retries as nat,
            limit: match self.limit {
                Some(l) => Some(l as nat),
                None => None,
            },
        }
    }
}

impl RetryRun {
    /// The pause before each retry.
    pub closed spec fn interval(&self) -> Duration {
        self.interval
    }

    /// The severity at which failed attempts are reported.
    pub closed spec fn log_level(&self) -> Option<log::Level> {
        self.log_level
    }

    /// Decide what follows an attempt whose result was `outcome`.
    ///
    /// A success ends the run with that success. A failure leads to a pause
    /// and another attempt while retries are left, and otherwise ends the run
    /// with that same error.
    pub fn record<T, E>(&mut self, outcome: Result<T, E>) -> (r: RetryStep<T, E>)
        ensures
            (final(self)@, kind_of(r)) == step(old(self)@, outcome is Ok),
            final(self).interval() == old(self).interval(),
            final(self).log_level() == old(self).log_level(),
            r matches RetryStep::Done(res) ==> res == outcome,
            r matches RetryStep::Wait { error, attempt, interval, log_level } ==> {
                &&& outcome == Err::<T, E>(error)
                &&& attempt == final(self)@.retries
                &&& interval == old(self).interval()
                &&& log_level == old(self).log_level()
            },
    {
        match outcome {
            Ok(v) => RetryStep::Done(Ok(v)),
            Err(e) => {
                let retry = match self.limit {
                    Some(l) => self.retries < l,
                    None => true,
                };
                if retry {
                    if self.retries < u64::MAX {
                        self.retries = self.retries + 1;
                    }
                    RetryStep::Wait {
                        error: e,
                        attempt: self.retries,
                        interval: self.interval,
                        log_level: self.log_level,
                    }
                } else {
                    RetryStep::Done(Err(e))
                }
            },
        }
    }
}

impl<OP> Backoff<OP> {
    /// How many retries the policy allows: the time budget divided by the
    /// interval, rounded down; `None` when there is no budget.
    pub fn counter_limit(&self) -> (r: Option<u64>)
        requires
            self.wf(),
        ensures
            match r {
                Some(l) => counter_limit_of(self@) == Some(l as nat),
                None => counter_limit_of(self@) is None,
            },
    {
        match self.max_elapsed_time {
            Some(m) => Some(m.as_micros() / self.interval.as_micros()),
            None => None,
        }
    }

    /// Begin a run of the policy: hand back the operation and a run that has
    /// made no retry yet.
    pub fn start(self) -> (r: (OP, RetryRun))
        requires
            self.wf(),
        ensures
            r.0 == self.op(),
            r.1@ == (RunState { retries: 0, limit: counter_limit_of(self@) }),
            r.1.interval()@ == self@.interval,
            r.1.log_level() == self@.log_level,
    {
        let limit = self.counter_limit();
        let run = RetryRun { retries: 0, limit, interval: self.interval, log_level: self.log_level };
        (self.op, run)
    }
}

/// A run whose operation fails `k` times and then succeeds, where `k` is at
/// most the retries left, retries exactly `k` times (pausing before each)
/// and then ends with the success.
pub proof fn lemma_success_after_failures(s: RunState, k: nat)
    requires
        s.limit matches Some(l) && s.retries + k <= l,
        s.retries + k <= u64::MAX,
    ensures
        run_trace(s, failures(k).push(true)) == retried(k).push(StepKind::Succeeded),
    decreases k,
{
    let outcomes = failures(k).push(true);
    if k == 0 {
        assert(run_trace(s, outcomes.drop_first()) == Seq::<StepKind>::empty());
        assert(run_trace(s, outcomes) =~= retried(0).push(StepKind::Succeeded));
    } else {
        let next = RunState { retries: s.retries + 1, ..s };
        assert(outcomes.drop_first() =~= failures((k - 1) as nat).push(true));
        lemma_success_after_failures(next, (k - 1) as nat);
        assert(run_trace(s, outcomes) =~= retried(k).push(StepKind::Succeeded));
    }
}

/// A run whose operation never succeeds retries exactly as often as its
/// limit allows and then gives up, with no pause after the last attempt.
pub proof fn lemma_gives_up_after_limit(s: RunState, n: nat)
    requires
        s.limit matches Some(l) && s.retries <= l && n > l - s.retries,
        s.limit matches Some(l) && l <= u64::MAX,
    ensures
        s.limit matches Some(l)
            && run_trace(s, failures(n)) == retried((l - s.retries) as nat).push(StepKind::GaveUp),
    decreases n,
{
    let l = s.limit->0;
    let outcomes = failures(n);
    if s.retries == l {
        assert(run_trace(s, outcomes) =~= retried(0).push(StepKind::GaveUp));
    } else {
        let next = RunState { retries: s.retries + 1, ..s };
        assert(outcomes.drop_first() =~= failures((n - 1) as nat));
        lemma_gives_up_after_limit(next, (n - 1) as nat);
        assert(run_trace(s, outcomes) =~= retried((l - s.retries) as nat).push(StepKind::GaveUp));
    }
}

/// The retry limit of a policy with a budget is the budget divided by the
/// interval, rounded down. An operation that fails `counter_limit` times and
/// then succeeds is retried `counter_limit` times, pausing before each, and
/// its success is returned; one that keeps failing is retried
/// `counter_limit` times and its last error returned, with no pause after.
pub proof fn lemma_retry_budget<OP>(b: Backoff<OP>, n: nat)
    requires
        b.wf(),
        b@.max_elapsed is Some,
        n > b@.max_elapsed->0 / b@.interval,
    ensures
        counter_limit_of(b@) == Some(b@.max_elapsed->0 / b@.interval),
        ({
            let l = b@.max_elapsed->0 / b@.interval;
            let s = RunState { retries: 0, limit: counter_limit_of(b@) };
            &&& run_trace(s, failures(l).push(true)) == retried(l).push(StepKind::Succeeded)
            &&& run_trace(s, failures(n)) == retried(l).push(StepKind::GaveUp)
        }),
{
    let m = b@.max_elapsed->0;
    let l = m / b@.interval;
    b.max_elapsed_time->0.lemma_bounded();
    assert(l <= m) by (nonlinear_arith)
        requires
            l == m / b@.interval,
            b@.interval > 0,
    ;
    let s = RunState { retries: 0, limit: counter_limit_of(b@) };
    lemma_success_after_failures(s, l);
    lemma_gives_up_after_limit(s, n);
}

/// With a zero time budget there is exactly one attempt: it ends the run,
/// whatever its result.
pub proof fn lemma_zero_budget_single_attempt<OP>(b: Backoff<OP>, outcomes: Seq<bool>)
    requires
        b.wf(),
        b@.max_elapsed == Some(0nat),
        outcomes.len() > 0,
    ensures
        counter_limit_of(b@) == Some(0nat),
        run_trace(RunState { retries: 0, limit: counter_limit_of(b@) }, outcomes)
            == seq![if outcomes[0] { StepKind::Succeeded } else { StepKind::GaveUp }],
{
    assert(0nat / b@.interval == 0) by (nonlinear_arith)
        requires
            b@.interval > 0,
    ;
}

} // verus!
