use vstd::prelude::*;
use vstd::string::StringExecFns;

verus! {

/// Why a request counted as a network failure.
#[derive(Debug, Clone, PartialEq, Eq)]
pub enum NetworkFailure {
    /// The API answered with a status that the operation does not accept.
    Status(u16),
    /// No answer came: timeout, name resolution, connection reset.
    Unreachable(String),
    /// A success answer whose body was not what the API documents, or file
    /// content that was not base64 UTF-8 text.
    Malformed,
}

/// The ways an analysis can fail. Every one ends the analysis.
#[derive(Debug, Clone, PartialEq, Eq)]
pub enum GHError {
    /// The quota is used up; `reset` is when it refills, in epoch seconds.
    RateLimitExceeded { reset: u64 },
    /// The repository path named no repository.
    RepoNotFound(String),
    /// The quota check was refused: the token is missing or invalid.
    AuthRequired,
    NetworkError(NetworkFailure),
    /// Writing the summary out failed.
    IoError(String),
}

/// Text of the form "HH:MM:SS", each part two decimal digits.
pub open spec fn is_clock_text(t: Seq<char>) -> bool {
    t.len() == 8 && t[2] == ':' && t[5] == ':' && forall|i: int|
        0 <= i < 8 && i != 2 && i != 5 ==> '0' <= #[trigger] t[i] <= '9'
}

/// The last second, in epoch seconds, that chrono can represent: the end of
/// its last year, 262142.
pub const LAST_CLOCK_SECOND: u64 = 8_210_266_876_799;

/// Relies on chrono: `DateTime::from_timestamp` reads epoch seconds, and gives
/// `None` only outside the years it can represent (up to 262142);
/// `with_timezone(&Local)` moves the instant to the machine's time zone, and
/// `format("%H:%M:%S")` writes hours, minutes and seconds zero-padded to two
/// digits each.
#[verifier::external_body]
fn local_clock(secs: i64) -> (r: Option<String>)
    ensures
        match r {
            Some(t) => is_clock_text(t@),
            None => true,
        },
        0 <= secs <= LAST_CLOCK_SECOND ==> r is Some,
{
    match chrono::DateTime::from_timestamp(secs, 0) {
        Some(t) => Some(t.with_timezone(&chrono::Local).format("%H:%M:%S").to_string()),
        None => None,
    }
}

/// The wall-clock time, on this machine, of the instant `reset` epoch
/// seconds, when it can be represented.
pub fn reset_clock(reset: u64) -> (r: Option<String>)
    ensures
        match r {
            Some(t) => is_clock_text(t@),
            None => true,
        },
        reset <= LAST_CLOCK_SECOND ==> r is Some,
{
    if reset <= 0x7fff_ffff_ffff_ffffu64 {
        local_clock(reset as i64)
    } else {
        None
    }
}

/// The message for an exhausted quota, given the refill time on the clock.
pub fn rate_limit_text(clock: Option<String>) -> (r: String)
    ensures
        r@ == rate_limit_text_view(clock),
{
    match clock {
        Some(t) => {
            let mut r = String::from_str("API rate limit exceeded. Resets at ");
            r.append(t.as_str());
            r
        },
        None => String::from_str("API rate limit exceeded"),
    }
}

/// The message for an exhausted quota that refills at `reset` epoch seconds:
/// it names the refill time on this machine's clock, "HH:MM:SS", for every
/// instant that the clock can show.
pub fn rate_limit_message(reset: u64) -> (r: String)
    ensures
        exists|c: Option<String>|
            #![trigger rate_limit_text_view(c)]
            r@ == rate_limit_text_view(c) && match c {
                Some(t) => is_clock_text(t@),
                None => true,
            },
        reset <= LAST_CLOCK_SECOND ==> exists|t: Seq<char>|
            #![trigger is_clock_text(t)]
            is_clock_text(t) && r@ == "API rate limit exceeded. Resets at "@ + t,
{
    let clock = reset_clock(reset);
    rate_limit_text(clock)
}

pub open spec fn rate_limit_text_view(clock: Option<String>) -> Seq<char> {
    match clock {
        Some(t) => "API rate limit exceeded. Resets at "@ + t@,
        None => "API rate limit exceeded"@,
    }
}

} // verus!
