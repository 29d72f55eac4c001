use vstd::prelude::*;

use crate::model::Time;

verus! {

/// How chrono writes the instant `seconds`/`nanos` (for example
/// `2024-05-12 11:21:10 UTC`), or `None` when it lies outside chrono's range.
pub uninterp spec fn rendered_time(seconds: int, nanos: int) -> Option<Seq<char>>;

/// Relies on `chrono::Utc::now`: the system time as seconds and sub-second
/// nanoseconds since the Unix epoch (chrono builds it from a `Duration` since
/// the epoch, so neither part is negative and the nanoseconds stay below one
/// second).
#[verifier::external_body]
pub(crate) fn current_time() -> (r: Time)
    ensures
        r.seconds >= 0,
        r.nanos < 1_000_000_000,
{
    let now = chrono::Utc::now();
    Time { seconds: now.timestamp(), nanos: now.timestamp_subsec_nanos() }
}

/// Relies on `chrono::DateTime::<Utc>::from_timestamp` and the `Display` of
/// the resulting date and time.
#[verifier::external_body]
pub(crate) fn render_time(t: Time) -> (r: Option<String>)
    ensures
        match r {
            Some(s) => rendered_time(t.seconds as int, t.nanos as int) == Some(s@),
            None => rendered_time(t.seconds as int, t.nanos as int) is None,
        },
{
    match chrono::DateTime::<chrono::Utc>::from_timestamp(t.seconds, t.nanos) {
        Some(d) => Some(d.to_string()),
        None => None,
    }
}

} // verus!
