//! Durations, deadlines and timestamps.
use crate::text;
use std::time::Duration;
use vstd::prelude::*;

verus! {

/// The length of a duration in nanoseconds, as `Duration::as_nanos` gives it.
pub uninterp spec fn duration_nanos(duration: Duration) -> nat;

/// `Duration::from_millis`: exactly that many milliseconds.
pub assume_specification[ Duration::from_millis ](millis: u64) -> (duration: Duration)
    ensures
        duration_nanos(duration) == millis * 1_000_000,
;

/// `Duration::from_secs`: exactly that many seconds.
pub assume_specification[ Duration::from_secs ](secs: u64) -> (duration: Duration)
    ensures
        duration_nanos(duration) == secs * 1_000_000_000,
;

/// `Duration::as_nanos`: the length of the duration.
pub assume_specification[ Duration::as_nanos ](duration: &Duration) -> (nanos: u128)
    ensures
        nanos == duration_nanos(*duration),
;

/// `Duration::as_millis`: the whole milliseconds of the duration.
pub assume_specification[ Duration::as_millis ](duration: &Duration) -> (millis: u128)
    ensures
        millis == duration_nanos(*duration) / 1_000_000,
;

/// `Duration::saturating_sub`: the difference, or zero where it would be negative.
pub assume_specification[ Duration::saturating_sub ](
    duration: Duration,
    rhs: Duration,
) -> (difference: Duration)
    ensures
        duration_nanos(difference) == if duration_nanos(duration) >= duration_nanos(rhs) {
            duration_nanos(duration) - duration_nanos(rhs)
        } else {
            0
        },
;

/// The whole milliseconds of a duration.
pub open spec fn whole_millis(duration: Duration) -> nat {
    duration_nanos(duration) / 1_000_000
}

/// The whole milliseconds of a duration as a 64-bit counter holds them.
pub open spec fn millis_u64(duration: Duration) -> nat {
    whole_millis(duration) % 0x1_0000_0000_0000_0000
}

/// The moment `retention` after `now_ms`, or the last representable moment
/// where that one lies beyond it.
pub open spec fn expiry(now_ms: u64, retention: Duration) -> u64 {
    if now_ms + millis_u64(retention) > u64::MAX {
        u64::MAX
    } else {
        (now_ms + millis_u64(retention)) as u64
    }
}

/// The moment `retention` before `now_ms`, or the epoch where that one lies
/// before it.
pub open spec fn cutoff(now_ms: u64, retention: Duration) -> u64 {
    if millis_u64(retention) > now_ms {
        0
    } else {
        (now_ms - millis_u64(retention)) as u64
    }
}

/// How long a finished task is kept, in the milliseconds that a task reports
/// as its time to live; nothing where 64 bits do not hold them.
pub open spec fn ttl(retention: Duration) -> Option<u64> {
    if whole_millis(retention) <= u64::MAX {
        Some(whole_millis(retention) as u64)
    } else {
        None
    }
}

/// The milliseconds of a duration, cut to 64 bits.
fn millis(duration: Duration) -> (millis: u64)
    ensures
        millis == millis_u64(duration),
{
    let whole: u128 = duration.as_millis();
    assert(whole as u64 == whole % 0x1_0000_0000_0000_0000) by (bit_vector);
    whole as u64
}

/// When a record finished at `now_ms` expires.
pub fn expires_at_ms(now_ms: u64, retention: Duration) -> (expires: u64)
    ensures
        expires == expiry(now_ms, retention),
{
    now_ms.saturating_add(millis(retention))
}

/// The oldest moment that is still kept at `now_ms`.
pub fn cutoff_ms(now_ms: u64, retention: Duration) -> (oldest: u64)
    ensures
        oldest == cutoff(now_ms, retention),
{
    now_ms.saturating_sub(millis(retention))
}

/// The time to live that a task kept for `retention` reports.
pub fn ttl_ms(retention: Duration) -> (reported: Option<u64>)
    ensures
        reported == ttl(retention),
{
    let whole: u128 = retention.as_millis();
    if whole <= 0xffff_ffff_ffff_ffff {
        Some(whole as u64)
    } else {
        None
    }
}

/// The RFC 3339 text of a UTC instant given in milliseconds since the epoch,
/// where the instant is one that a calendar date can be given for.
pub uninterp spec fn rfc3339_text(millis: i64) -> Option<Seq<char>>;

/// The text of `millis`, with `now` in place of an instant that has none.
pub open spec fn timestamp(millis: u64, now: Seq<char>) -> Seq<char> {
    if millis > i64::MAX {
        now
    } else {
        match rfc3339_text(millis as i64) {
            Some(text) => text,
            None => now,
        }
    }
}

/// Calls `DateTime::<Utc>::from_timestamp_millis` and `to_rfc3339` on what it
/// gives: the text depends on the milliseconds alone.
#[verifier::external_body]
fn format_millis(millis: i64) -> (text: Option<String>)
    ensures
        text::text_of(text) == rfc3339_text(millis),
{
    match chrono::DateTime::<chrono::Utc>::from_timestamp_millis(millis) {
        Some(instant) => Some(instant.to_rfc3339()),
        None => None,
    }
}

/// Calls `Utc::now` and `to_rfc3339`: the current time as text, of which
/// nothing is known beforehand.
#[verifier::external_body]
fn utc_now() -> (text: String)
{
    chrono::Utc::now().to_rfc3339()
}

/// Whether a text is one that a look at the clock of the machine gave.
pub closed spec fn is_now(text: Seq<char>) -> bool {
    exists|given: String| #[trigger] call_ensures(utc_now, (), given) && given@ == text
}

/// A text counts as now only where a look at the clock gave it, character by
/// character.
proof fn now_is_what_the_clock_gave(text: Seq<char>)
    requires
        is_now(text),
    ensures
        exists|given: String| #[trigger] call_ensures(utc_now, (), given) && given@ == text,
{
}

/// The current time as RFC 3339 text.
pub(crate) fn now_text() -> (text: String)
    ensures
        is_now(text@),
{
    utc_now()
}

/// Renders a millisecond UNIX timestamp as an RFC 3339 string, falling back to
/// `now` where the value is out of range.
pub fn ms_to_rfc3339(ms: u64, now: &str) -> (text: String)
    ensures
        text@ == timestamp(ms, now@),
{
    if ms > 0x7fff_ffff_ffff_ffff {
        return now.to_owned();
    }
    match format_millis(ms as i64) {
        Some(text) => text,
        None => now.to_owned(),
    }
}

} // verus!
