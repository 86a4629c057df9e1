//! The two places where chance decides: how long to wait between two
//! reminders, and the verdict at the very end.

use rand::Rng;
use vstd::prelude::*;
use vstd::string::StringExecFns;

verus! {

/// The one thing that can go wrong: Rust has still not been learned.
#[derive(Debug, Clone, Copy, PartialEq, Eq, Structural)]
pub struct RustProcrastinationError;

/// Where a line is written.
#[derive(Debug, Clone, Copy, PartialEq, Eq, Structural)]
pub enum Stream {
    Output,
    Error,
}

/// The last line of a run, and the stream it goes to.
#[derive(Debug)]
pub struct Closing {
    pub stream: Stream,
    pub text: String,
}

/// What the error says of itself.
pub open spec fn procrastination_text() -> Seq<char> {
    "You still haven't learned Rust. This is a grave error."@
}

/// The text of the last line: praise after success, and after failure the
/// error's own words behind a prefix.
pub open spec fn closing_text(failed: bool) -> Seq<char> {
    if failed {
        "💥 Error: "@ + procrastination_text()
    } else {
        "You're on your way to Rust mastery! 🦀"@
    }
}

/// Draws a number from `low` up to, but not including, `high`.
///
/// Calls `rand::Rng::gen_range` on the thread's generator with the range
/// `low..high`. The range must not be empty, or the call panics. Trusted:
/// the number drawn lies in the range.
#[verifier::external_body]
fn random_in_range(low: u64, high: u64) -> (drawn: u64)
    requires
        low < high,
    ensures
        low <= drawn < high,
{
    rand::thread_rng().gen_range(low..high)
}

/// Draws `true` with a chance of `numerator` in `denominator`.
///
/// Calls `rand::Rng::gen_ratio` on the thread's generator. The call panics
/// on a zero denominator and on a numerator above the denominator. Trusted:
/// a chance of zero never gives `true`, and a chance of one always does.
#[verifier::external_body]
fn random_ratio(numerator: u32, denominator: u32) -> (drawn: bool)
    requires
        0 < denominator,
        numerator <= denominator,
    ensures
        numerator == 0 ==> !drawn,
        numerator == denominator ==> drawn,
{
    rand::thread_rng().gen_ratio(numerator, denominator)
}

/// The number of seconds to wait before the next reminder: one to four.
pub fn get_random_delay() -> (seconds: u64)
    ensures
        1 <= seconds < 5,
{
    random_in_range(1, 5)
}

/// The verdict that belongs to a draw: a `true` draw is the error.
pub fn verdict_of(drawn: bool) -> (verdict: Result<(), RustProcrastinationError>)
    ensures
        verdict.is_err() == drawn,
        verdict.is_ok() == !drawn,
{
    if drawn {
        Err(RustProcrastinationError)
    } else {
        Ok(())
    }
}

/// Flips a fair coin for the verdict. Nothing that happened before has any
/// part in it.
pub fn check_procrastination() -> (verdict: Result<(), RustProcrastinationError>) {
    let drawn = random_ratio(1, 2);
    verdict_of(drawn)
}

impl RustProcrastinationError {
    /// What the error says of itself.
    pub fn message(&self) -> (text: &'static str)
        ensures
            text@ == procrastination_text(),
    {
        "You still haven't learned Rust. This is a grave error."
    }
}

/// The last line of a run for the given verdict.
pub fn closing(verdict: Result<(), RustProcrastinationError>) -> (last: Closing)
    ensures
        last.text@ == closing_text(verdict.is_err()),
        last.stream == if verdict.is_err() {
            Stream::Error
        } else {
            Stream::Output
        },
{
    match verdict {
        Ok(_) => Closing {
            stream: Stream::Output,
            text: String::from_str("You're on your way to Rust mastery! 🦀"),
        },
        Err(e) => {
            let mut text = String::from_str("💥 Error: ");
            text.append(e.message());
            Closing { stream: Stream::Error, text }
        },
    }
}

} // verus!
