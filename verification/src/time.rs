//! Time spans and the clock.

use vstd::prelude::*;

use std::time::{Duration, UNIX_EPOCH};

verus! {

/// The length of a time span in nanoseconds, as `Duration::as_nanos` gives it.
pub uninterp spec fn duration_nanos(span: Duration) -> nat;

/// `std::time::Duration::from_secs` makes a time span of whole seconds.
pub assume_specification[ Duration::from_secs ](secs: u64) -> (span: Duration)
    ensures
        duration_nanos(span) == secs as nat * 1_000_000_000,
;

/// `std::time::Duration::from_millis` makes a time span of whole milliseconds.
pub assume_specification[ Duration::from_millis ](millis: u64) -> (span: Duration)
    ensures
        duration_nanos(span) == millis as nat * 1_000_000,
;

/// `std::time::Duration::as_secs` returns the whole seconds of a time span.
pub assume_specification[ Duration::as_secs ](span: &Duration) -> (secs: u64)
    ensures
        secs == duration_nanos(*span) / 1_000_000_000,
;

/// `std::time::Duration::as_millis` returns the whole milliseconds of a time span.
pub assume_specification[ Duration::as_millis ](span: &Duration) -> (millis: u128)
    ensures
        millis == duration_nanos(*span) / 1_000_000,
;

/// `std::time::Duration::subsec_nanos` returns the part of a time span that its whole seconds
/// leave, in nanoseconds.
pub assume_specification[ Duration::subsec_nanos ](span: &Duration) -> (nanos: u32)
    ensures
        nanos == duration_nanos(*span) % 1_000_000_000,
;

/// Calls `std::time::SystemTime::elapsed` on the UNIX epoch. What the clock says is not stated;
/// there is nothing if the clock stands before the epoch.
#[verifier::external_body]
fn since_epoch() -> (span: Option<Duration>) {
    UNIX_EPOCH.elapsed().ok()
}

/// Whether this is what the clock said when it was asked.
pub closed spec fn clock_said(elapsed: Option<Duration>) -> bool {
    call_ensures(since_epoch, (), elapsed)
}

/// What the clock said can only come from asking it.
proof fn law_clock_was_asked(elapsed: Option<Duration>)
    requires
        clock_said(elapsed),
    ensures
        call_ensures(since_epoch, (), elapsed),
{
}

/// Whether a time is the whole seconds of what the clock says, which may be nothing.
pub open spec fn is_secs_of(now: Option<u64>, elapsed: Option<Duration>) -> bool {
    match (now, elapsed) {
        (Some(secs), Some(span)) => secs == duration_nanos(span) / 1_000_000_000,
        (None, None) => true,
        _ => false,
    }
}

/// Whether a time is the whole milliseconds of what the clock says, which may be nothing.
pub open spec fn is_millis_of(now: Option<u128>, elapsed: Option<Duration>) -> bool {
    match (now, elapsed) {
        (Some(millis), Some(span)) => millis == duration_nanos(span) / 1_000_000,
        (None, None) => true,
        _ => false,
    }
}

/// Whether a time is the whole seconds of what the clock said when it was asked.
pub open spec fn is_now_secs(now: Option<u64>) -> bool {
    exists|elapsed: Option<Duration>| #[trigger] clock_said(elapsed) && is_secs_of(now, elapsed)
}

/// Whether a time is the whole milliseconds of what the clock said when it was asked.
pub open spec fn is_now_millis(now: Option<u128>) -> bool {
    exists|elapsed: Option<Duration>| #[trigger] clock_said(elapsed) && is_millis_of(now, elapsed)
}

/// The whole seconds of the time that has elapsed since the UNIX epoch, if the clock says it.
pub fn secs_since_epoch(elapsed: Option<Duration>) -> (now: Option<u64>)
    ensures
        is_secs_of(now, elapsed),
{
    match elapsed {
        Some(span) => Some(span.as_secs()),
        None => None,
    }
}

/// The whole milliseconds of the time that has elapsed since the UNIX epoch, if the clock says it.
pub fn millis_since_epoch(elapsed: Option<Duration>) -> (now: Option<u128>)
    ensures
        is_millis_of(now, elapsed),
{
    match elapsed {
        Some(span) => Some(span.as_millis()),
        None => None,
    }
}

/// Returns the current UNIX Epoch time, in seconds, or nothing if the time is not available. Which
/// time it is depends on the clock.
pub fn unix_now_secs() -> (now: Option<u64>)
    ensures
        exists|elapsed: Option<Duration>| is_secs_of(now, elapsed),
        is_now_secs(now),
{
    let elapsed = since_epoch();
    assert(clock_said(elapsed));
    secs_since_epoch(elapsed)
}

/// Returns the current UNIX Epoch time, in milliseconds, or nothing if the time is not available.
/// Which time it is depends on the clock.
pub fn unix_now_millis() -> (now: Option<u128>)
    ensures
        exists|elapsed: Option<Duration>| is_millis_of(now, elapsed),
        is_now_millis(now),
{
    let elapsed = since_epoch();
    assert(clock_said(elapsed));
    millis_since_epoch(elapsed)
}

/// The whole milliseconds of a time span that was measured.
pub fn took_ms(elapsed: &Duration) -> (millis: u64)
    requires
        duration_nanos(*elapsed) / 1_000_000 <= u64::MAX,
    ensures
        millis == duration_nanos(*elapsed) / 1_000_000,
{
    let ghost nanos = duration_nanos(*elapsed) as int;
    proof {
        assert(nanos / 1_000_000 == (nanos / 1_000_000_000) * 1000 + (nanos % 1_000_000_000)
            / 1_000_000);
    }
    elapsed.as_secs() * 1000 + elapsed.subsec_nanos() as u64 / 1_000_000
}

/// The current time in seconds is that of the clock: it is there if the clock said one, and no whole
/// second has passed since.
pub proof fn law_current_seconds(now: Option<u64>)
    requires
        call_ensures(unix_now_secs, (), now),
    ensures
        exists|elapsed: Option<Duration>| #[trigger]
            clock_said(elapsed) && match elapsed {
                None => now is None,
                Some(span) => now matches Some(secs) && secs * 1_000_000_000 <= duration_nanos(span)
                    < (secs + 1) * 1_000_000_000,
            },
{
    let elapsed = choose|elapsed: Option<Duration>| #[trigger]
        clock_said(elapsed) && is_secs_of(now, elapsed);
    assert(clock_said(elapsed));
}

/// The current time in milliseconds is that of the clock: it is there if the clock said one, and no
/// whole millisecond has passed since.
pub proof fn law_current_milliseconds(now: Option<u128>)
    requires
        call_ensures(unix_now_millis, (), now),
    ensures
        exists|elapsed: Option<Duration>| #[trigger]
            clock_said(elapsed) && match elapsed {
                None => now is None,
                Some(span) => now matches Some(millis) && millis * 1_000_000 <= duration_nanos(span)
                    < (millis + 1) * 1_000_000,
            },
{
    let elapsed = choose|elapsed: Option<Duration>| #[trigger]
        clock_said(elapsed) && is_millis_of(now, elapsed);
    assert(clock_said(elapsed));
}

/// Time spans are rounded down to whole seconds and milliseconds, and a span that is missing stays
/// missing.
pub proof fn law_spans_rounded_down(
    elapsed: Option<Duration>,
    secs: Option<u64>,
    millis: Option<u128>,
)
    requires
        call_ensures(secs_since_epoch, (elapsed,), secs),
        call_ensures(millis_since_epoch, (elapsed,), millis),
    ensures
        match elapsed {
            None => secs is None && millis is None,
            Some(span) => {
                &&& secs matches Some(s) && s * 1_000_000_000 <= duration_nanos(span) < (s + 1)
                    * 1_000_000_000
                &&& millis matches Some(m) && m * 1_000_000 <= duration_nanos(span) < (m + 1)
                    * 1_000_000
            },
        },
{
}

/// A measured time is rounded down to whole milliseconds.
pub proof fn law_measured_time(elapsed: Duration, millis: u64)
    requires
        duration_nanos(elapsed) / 1_000_000 <= u64::MAX,
        call_ensures(took_ms, (&elapsed,), millis),
    ensures
        millis * 1_000_000 <= duration_nanos(elapsed) < (millis + 1) * 1_000_000,
{
}

/// The time that it is now is that of the clock, rounded down to whole seconds.
pub proof fn law_now_in_seconds(now: u64)
    ensures
        is_now_secs(Some(now)) ==> exists|span: Duration| #[trigger]
            clock_said(Some(span)) && now * 1_000_000_000 <= duration_nanos(span) < (now + 1)
                * 1_000_000_000,
        is_now_secs(None) ==> clock_said(None),
{
    if is_now_secs(Some(now)) {
        let elapsed = choose|elapsed: Option<Duration>| #[trigger]
            clock_said(elapsed) && is_secs_of(Some(now), elapsed);
        assert(clock_said(Some(elapsed.unwrap())));
    }
    if is_now_secs(None) {
        let elapsed = choose|elapsed: Option<Duration>| #[trigger]
            clock_said(elapsed) && is_secs_of(None, elapsed);
        assert(clock_said(elapsed));
    }
}

/// The time that it is now is that of the clock, rounded down to whole milliseconds.
pub proof fn law_now_in_milliseconds(now: u128)
    ensures
        is_now_millis(Some(now)) ==> exists|span: Duration| #[trigger]
            clock_said(Some(span)) && now * 1_000_000 <= duration_nanos(span) < (now + 1)
                * 1_000_000,
        is_now_millis(None) ==> clock_said(None),
{
    if is_now_millis(Some(now)) {
        let elapsed = choose|elapsed: Option<Duration>| #[trigger]
            clock_said(elapsed) && is_millis_of(Some(now), elapsed);
        assert(clock_said(Some(elapsed.unwrap())));
    }
    if is_now_millis(None) {
        let elapsed = choose|elapsed: Option<Duration>| #[trigger]
            clock_said(elapsed) && is_millis_of(None, elapsed);
        assert(clock_said(elapsed));
    }
}

} // verus!
