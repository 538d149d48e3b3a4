use vstd::prelude::*;

use crate::errors::{display_kind, DisplayError, ErrorChain, ErrorKind, TerminalFault};
use crate::retry::Backoff;
use crate::time::{Duration, MICROS_PER_MILLI};

verus! {

/// Time budget for clearing the screen after a failed render, in milliseconds.
pub const RECOVERY_BUDGET_MS: u64 = 500;

/// The operations of the display driver.
#[derive(Clone, Copy, Debug, PartialEq, Eq, Structural)]
pub enum DisplayOp {
    Init,
    Clear,
    Write,
    SetPosition,
}

/// The kind an operation adds on top of the driver's own failure, if any.
pub open spec fn op_kind(op: DisplayOp) -> Option<DisplayError> {
    match op {
        DisplayOp::Init => Some(DisplayError::InitFailed),
        DisplayOp::Clear => Some(DisplayError::ClearError),
        DisplayOp::Write => Some(DisplayError::WriteError),
        DisplayOp::SetPosition => None,
    }
}

/// The error of an operation that the driver failed with `fault`, outermost
/// first: the kind of the operation, if it has one, with the driver's kind
/// as its cause.
pub open spec fn op_error_spec(op: DisplayOp, fault: TerminalFault) -> Seq<ErrorKind> {
    match op_kind(op) {
        Some(k) => seq![ErrorKind::Display(k), ErrorKind::Display(display_kind(fault))],
        None => seq![ErrorKind::Display(display_kind(fault))],
    }
}

/// The error of display operation `op` that the driver failed with `fault`.
pub fn op_error(op: DisplayOp, fault: TerminalFault) -> (r: ErrorChain)
    ensures
        r.wf(),
        r@ == op_error_spec(op, fault),
{
    let e = ErrorChain::new(ErrorKind::Display(DisplayError::from(fault)));
    match op {
        DisplayOp::Init => e.chain(ErrorKind::Display(DisplayError::InitFailed)),
        DisplayOp::Clear => e.chain(ErrorKind::Display(DisplayError::ClearError)),
        DisplayOp::Write => e.chain(ErrorKind::Display(DisplayError::WriteError)),
        DisplayOp::SetPosition => e,
    }
}

/// The error of writing text that could not be formatted.
pub fn format_error() -> (r: ErrorChain)
    ensures
        r.wf(),
        r@ == seq![
            ErrorKind::Display(DisplayError::WriteError),
            ErrorKind::Display(DisplayError::FormatError),
        ],
{
    ErrorChain::new(ErrorKind::Display(DisplayError::FormatError)).chain(
        ErrorKind::Display(DisplayError::WriteError),
    )
}

/// What the counter screen shows next, and whether the screen is cleared
/// first because the count ran past the largest `u16`.
#[derive(Clone, Copy, Debug, PartialEq, Eq, Structural)]
pub struct CounterStep {
    pub next: u16,
    pub clear: bool,
}

/// The count after `counter`: one more, or 1 on a cleared screen once the
/// count cannot grow.
pub fn next_count(counter: u16) -> (r: CounterStep)
    ensures
        counter < u16::MAX ==> r == (CounterStep { next: (counter + 1) as u16, clear: false }),
        counter == u16::MAX ==> r == (CounterStep { next: 1, clear: true }),
{
    match counter.checked_add(1) {
        Some(next) => CounterStep { next, clear: false },
        None => CounterStep { next: 1, clear: true },
    }
}

/// The policy that clears the screen after a failed render: `clear` is
/// retried at the default interval within a 500 ms budget, reporting each
/// failed attempt at `log_level`.
pub fn recovery_policy<OP>(clear: OP, log_level: Option<log::Level>) -> (b: Backoff<OP>)
    ensures
        b.wf(),
        b.op() == clear,
        b@.max_elapsed == Some((RECOVERY_BUDGET_MS * MICROS_PER_MILLI) as nat),
        b@.log_level == log_level,
        b@.interval == crate::retry::DEFAULT_INTERVAL_MS * MICROS_PER_MILLI,
{
    Backoff::new(clear).with_log_level(log_level).with_max_elapsed_time(
        Some(Duration::from_millis(RECOVERY_BUDGET_MS)),
    )
}

/// The outcome of a render cycle whose render failed with `render_error` and
/// whose recovery ended with `cleared`: a recovered screen is no error; a
/// failed recovery is reported as the cause list of the render error
/// followed by the cause list of the clearing error.
pub fn recover_render(render_error: ErrorChain, cleared: Result<(), ErrorChain>) -> (r: Result<
    (),
    ErrorChain,
>)
    requires
        render_error.wf(),
    ensures
        cleared is Ok ==> r is Ok,
        cleared matches Err(c) ==> r matches Err(e) && e.wf() && e@ == render_error@ + c@,
{
    match cleared {
        Ok(()) => Ok(()),
        Err(c) => Err(render_error.extend(&c)),
    }
}

} // verus!
