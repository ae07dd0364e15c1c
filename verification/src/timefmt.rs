use vstd::prelude::*;

verus! {

/// Bounds on the local timestamps this library renders. They lie well inside
/// the range of dates that the calendar backend can represent (roughly
/// 253,000 years either side of the epoch), so every timestamp that satisfies
/// them has a rendering.
pub const TIME_SECS_MIN: i64 = -8_000_000_000_000;

pub const TIME_SECS_MAX: i64 = 8_000_000_000_000;

/// The calendar rendering of a local timestamp, `YYYY-MM-DD HH:MM:SS`: a
/// function of the seconds alone.
pub uninterp spec fn time_text(secs: int) -> Seq<char>;

/// Relies on chrono's `DateTime::<Utc>::from_timestamp` and the `Display` of
/// `NaiveDateTime`: the rendered text is a function of the seconds alone, and
/// `from_timestamp` returns `Some` for every count of seconds whose day lies
/// within the supported calendar range, which contains the bounds above.
#[verifier::external_body]
pub(crate) fn format_local_time(secs: i64) -> (r: String)
    requires
        TIME_SECS_MIN <= secs <= TIME_SECS_MAX,
    ensures
        r@ == time_text(secs as int),
{
    match chrono::DateTime::<chrono::Utc>::from_timestamp(secs, 0) {
        Some(t) => t.naive_utc().to_string(),
        None => String::new(),
    }
}

/// Whether a local timestamp lies within the range the library renders.
pub fn time_in_range(secs: i64) -> (r: bool)
    ensures
        r == (TIME_SECS_MIN <= secs <= TIME_SECS_MAX),
{
    TIME_SECS_MIN <= secs && secs <= TIME_SECS_MAX
}

} // verus!
