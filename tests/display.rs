use cansat::display::{format_error, next_count, op_error, recover_render, recovery_policy, CounterStep, DisplayOp};
use cansat::errors::{DisplayError, ErrorChain, ErrorKind, TerminalFault};
use cansat::retry::RetryStep;

fn kind(k: DisplayError) -> ErrorKind {
    ErrorKind::Display(k)
}

#[test]
fn operation_errors_name_operation_then_driver_fault() {
    assert_eq!(
        op_error(DisplayOp::Clear, TerminalFault::InterfaceError).kinds(),
        vec![kind(DisplayError::ClearError), kind(DisplayError::InterfaceError)]
    );
    assert_eq!(
        op_error(DisplayOp::Init, TerminalFault::Uninitialized).kinds(),
        vec![kind(DisplayError::InitFailed), kind(DisplayError::Uninitialised)]
    );
    assert_eq!(
        op_error(DisplayOp::Write, TerminalFault::OutOfBounds).kinds(),
        vec![kind(DisplayError::WriteError), kind(DisplayError::OutOfBounds)]
    );
    assert_eq!(
        op_error(DisplayOp::SetPosition, TerminalFault::OutOfBounds).kinds(),
        vec![kind(DisplayError::OutOfBounds)]
    );
    assert_eq!(
        format_error().kinds(),
        vec![kind(DisplayError::WriteError), kind(DisplayError::FormatError)]
    );
}

#[test]
fn counter_counts_up_and_wraps_to_one_with_clear() {
    assert_eq!(next_count(0), CounterStep { next: 1, clear: false });
    assert_eq!(next_count(41), CounterStep { next: 42, clear: false });
    assert_eq!(next_count(u16::MAX - 1), CounterStep { next: u16::MAX, clear: false });
    assert_eq!(next_count(u16::MAX), CounterStep { next: 1, clear: true });
}

#[test]
fn failed_recovery_lists_write_error_then_clear_error() {
    let render = ErrorChain::new(kind(DisplayError::WriteError));
    let policy = recovery_policy((), Some(log::Level::Trace));
    assert_eq!(policy.counter_limit(), Some(1));
    let (_, mut run) = policy.start();
    let mut attempts = 0;
    let cleared = loop {
        attempts += 1;
        let attempt: Result<(), ErrorChain> = Err(op_error(DisplayOp::Clear, TerminalFault::InterfaceError));
        match run.record(attempt) {
            RetryStep::Done(r) => break r,
            RetryStep::Wait { interval, .. } => assert_eq!(interval.as_micros(), 500_000),
        }
    };
    assert_eq!(attempts, 2);
    let e = recover_render(render, cleared).unwrap_err();
    assert_eq!(
        e.kinds(),
        vec![
            kind(DisplayError::WriteError),
            kind(DisplayError::ClearError),
            kind(DisplayError::InterfaceError)
        ]
    );
}

#[test]
fn successful_recovery_reports_nothing() {
    let render = format_error();
    assert!(recover_render(render, Ok(())).is_ok());
}
