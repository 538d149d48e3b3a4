use cansat::retry::{Backoff, ConfigError, RetryRun, RetryStep};
use cansat::time::Duration;

/// Drives a run to its end; `outcomes` gives the result of each attempt in
/// turn. Returns the result, the attempts made and the time spent pausing.
fn drive(run: &mut RetryRun, outcomes: &[Result<u32, &'static str>]) -> (Result<u32, &'static str>, usize, u64) {
    let mut attempts = 0;
    let mut slept = 0;
    loop {
        let outcome = outcomes[attempts];
        attempts += 1;
        match run.record(outcome) {
            RetryStep::Done(r) => return (r, attempts, slept),
            RetryStep::Wait { interval, attempt, .. } => {
                assert_eq!(attempt as usize, attempts);
                slept += interval.as_micros();
            }
        }
    }
}

fn policy(interval_ms: u64, max_ms: Option<u64>) -> Backoff<()> {
    Backoff::new(())
        .with_interval(Duration::from_millis(interval_ms))
        .unwrap()
        .with_max_elapsed_time(max_ms.map(Duration::from_millis))
}

#[test]
fn defaults_are_half_second_interval_and_five_second_budget() {
    let b = Backoff::new(());
    assert_eq!(b.counter_limit(), Some(10));
    let (_, run) = b.start();
    let mut run = run;
    let outcomes = [Err("e"); 11];
    let (r, attempts, slept) = drive(&mut run, &outcomes);
    assert_eq!(r, Err("e"));
    assert_eq!(attempts, 11);
    assert_eq!(slept, 10 * 500_000);
}

#[test]
fn counter_limit_is_budget_over_interval_rounded_down() {
    assert_eq!(policy(10, Some(100)).counter_limit(), Some(10));
    assert_eq!(policy(30, Some(100)).counter_limit(), Some(3));
    assert_eq!(policy(200, Some(100)).counter_limit(), Some(0));
    assert_eq!(policy(7, None).counter_limit(), None);
}

#[test]
fn zero_interval_is_refused() {
    let r = Backoff::new(()).with_interval(Duration::from_millis(0));
    assert!(matches!(r, Err(ConfigError::ZeroInterval)));
    let mut b = Backoff::new(());
    assert_eq!(b.set_interval(Duration::from_micros(0)), Err(ConfigError::ZeroInterval));
    assert_eq!(b.counter_limit(), Some(10));
    assert_eq!(b.set_interval(Duration::from_secs(1)), Ok(()));
    assert_eq!(b.counter_limit(), Some(5));
}

#[test]
fn flaky_bus_succeeds_on_third_attempt_after_twenty_ms() {
    let (_, mut run) = policy(10, Some(100)).start();
    let outcomes = [Err("nack"), Err("nack"), Ok(42)];
    let (r, attempts, slept) = drive(&mut run, &outcomes);
    assert_eq!(r, Ok(42));
    assert_eq!(attempts, 3);
    assert_eq!(slept, 20_000);
}

#[test]
fn failing_limit_times_then_succeeding_uses_every_retry() {
    let (_, mut run) = policy(10, Some(35)).start();
    let outcomes = [Err("a"), Err("b"), Err("c"), Ok(1)];
    let (r, attempts, slept) = drive(&mut run, &outcomes);
    assert_eq!(r, Ok(1));
    assert_eq!(attempts, 4);
    assert_eq!(slept, 30_000);
}

#[test]
fn never_succeeding_returns_last_error_without_trailing_pause() {
    let (_, mut run) = policy(10, Some(30)).start();
    let outcomes = [Err("a"), Err("b"), Err("c"), Err("d"), Err("e")];
    let (r, attempts, slept) = drive(&mut run, &outcomes);
    assert_eq!(r, Err("d"));
    assert_eq!(attempts, 4);
    assert_eq!(slept, 30_000);
}

#[test]
fn zero_budget_means_one_attempt() {
    let (_, mut run) = policy(10, Some(0)).start();
    let (r, attempts, slept) = drive(&mut run, &[Err("x"), Ok(3)]);
    assert_eq!(r, Err("x"));
    assert_eq!((attempts, slept), (1, 0));
    let (_, mut run) = policy(10, Some(0)).start();
    let (r, attempts, slept) = drive(&mut run, &[Ok(3)]);
    assert_eq!(r, Ok(3));
    assert_eq!((attempts, slept), (1, 0));
}

#[test]
fn success_first_time_never_pauses() {
    let (_, mut run) = policy(10, Some(100)).start();
    let (r, attempts, slept) = drive(&mut run, &[Ok(9)]);
    assert_eq!(r, Ok(9));
    assert_eq!((attempts, slept), (1, 0));
}

#[test]
fn no_budget_keeps_retrying() {
    let (_, mut run) = policy(1, None).start();
    let outcomes: Vec<Result<u32, &'static str>> =
        (0..1000).map(|_| Err("busy")).chain(std::iter::once(Ok(5))).collect();
    let (r, attempts, slept) = drive(&mut run, &outcomes);
    assert_eq!(r, Ok(5));
    assert_eq!(attempts, 1001);
    assert_eq!(slept, 1000 * 1000);
}

#[test]
fn wait_carries_error_and_log_level() {
    let b = policy(10, Some(100)).with_log_level(Some(log::Level::Warn));
    let (op, mut run) = b.start();
    assert_eq!(op, ());
    match run.record::<u8, &str>(Err("timeout")) {
        RetryStep::Wait { error, attempt, interval, log_level } => {
            assert_eq!(error, "timeout");
            assert_eq!(attempt, 1);
            assert_eq!(interval, Duration::from_millis(10));
            assert_eq!(log_level, Some(log::Level::Warn));
        }
        RetryStep::Done(_) => panic!("expected a retry"),
    }
}

#[test]
fn setters_change_only_their_field() {
    let mut b = Backoff::new(7u8);
    b.set_log_level(Some(log::Level::Error));
    b.set_max_elapsed_time(Some(Duration::from_secs(2)));
    assert_eq!(b.counter_limit(), Some(4));
    b.set_max_elapsed_time(None);
    assert_eq!(b.counter_limit(), None);
    let (op, mut run) = b.start();
    assert_eq!(op, 7);
    match run.record::<(), ()>(Err(())) {
        RetryStep::Wait { interval, log_level, .. } => {
            assert_eq!(interval.as_micros(), 500_000);
            assert_eq!(log_level, Some(log::Level::Error));
        }
        RetryStep::Done(_) => panic!("expected a retry"),
    }
}
