use vstd::prelude::*;
use vstd::wrapping::u64_specs;

verus! {

/// OS-reported timeline bounds for one session. All four values are
/// millisecond-equivalent integers on the same clock scale; `None` marks a
/// property the provider could not supply.
#[derive(Clone, Copy)]
pub struct TimelineProperties {
    pub start_time: Option<i64>,
    pub end_time: Option<i64>,
    pub position: Option<i64>,
    pub last_updated: Option<u64>,
}

/// A signed timeline value reinterpreted as the unsigned 64-bit quantity the
/// arithmetic below runs on; an unreadable value defaults to 0.
pub open spec fn spec_time_span(value: Option<i64>) -> u64 {
    match value {
        Some(d) => if d >= 0 {
            d as u64
        } else {
            (d + 0x1_0000_0000_0000_0000) as u64
        },
        None => 0,
    }
}

/// The two's-complement reinterpretation of an unsigned 64-bit value as a
/// signed one, under which the wrapped arithmetic lands in the record's
/// signed fields.
pub open spec fn spec_u64_to_i64(x: u64) -> i64 {
    if x <= i64::MAX {
        x as i64
    } else {
        (x - 0x1_0000_0000_0000_0000) as i64
    }
}

/// `duration = endTime - startTime`, with unreadable bounds defaulting to 0.
/// The subtraction wraps modulo 2^64, so an unreadable end beside a readable
/// start surfaces as a negative duration rather than a fault.
pub open spec fn spec_duration_ms(t: TimelineProperties) -> i64 {
    spec_u64_to_i64(u64_specs::wrapping_sub(spec_time_span(t.end_time), spec_time_span(t.start_time)))
}

/// The wall-clock moment position extrapolation measures from: the reported
/// last-update time, or `now` itself when unreadable (forcing a zero delta).
pub open spec fn spec_effective_last_updated(now_ms: u64, last_updated: Option<u64>) -> u64 {
    match last_updated {
        Some(t) => t,
        None => now_ms,
    }
}

/// The position formula: while playing, the wall-clock time elapsed since
/// the OS last updated the position is added to the reported position;
/// otherwise the reported position stands as is. All arithmetic wraps
/// modulo 2^64 before landing in the signed result.
pub open spec fn spec_position_ms(
    is_playing: bool,
    reported: u64,
    now_ms: u64,
    last_updated: Option<u64>,
) -> i64 {
    if is_playing {
        spec_u64_to_i64(u64_specs::wrapping_add(
            u64_specs::wrapping_sub(now_ms, spec_effective_last_updated(now_ms, last_updated)),
            reported,
        ))
    } else {
        spec_u64_to_i64(reported)
    }
}

/// Reinterprets an unsigned 64-bit value as signed, two's-complement style.
fn u64_to_i64_wrapped(x: u64) -> (r: i64)
    ensures
        r == spec_u64_to_i64(x),
{
    if x <= i64::MAX as u64 {
        x as i64
    } else {
        let d: u64 = u64::MAX - x;
        -(d as i64) - 1
    }
}

/// Unwraps an OS time span into the unsigned millisecond-equivalent count
/// the position and duration arithmetic runs on; unreadable defaults to 0.
pub fn getTimeSpan(value: Option<i64>) -> (r: u64)
    ensures
        r == spec_time_span(value),
{
    match value {
        Some(d) => {
            if d >= 0 {
                d as u64
            } else {
                let m: u64 = (-(d + 1)) as u64;
                u64::MAX - m
            }
        },
        None => 0,
    }
}

/// `duration = endTime - startTime` over the defaulted timeline bounds.
pub fn durationMs(t: &TimelineProperties) -> (r: i64)
    ensures
        r == spec_duration_ms(*t),
        t.end_time is Some && t.start_time is Some && 0 <= t.start_time->0 <= t.end_time->0
            && t.end_time->0 - t.start_time->0 <= i64::MAX ==> r == t.end_time->0
            - t.start_time->0,
        t.end_time is None && t.start_time is Some && t.start_time->0 >= 0 ==> r
            == -t.start_time->0,
{
    let end = getTimeSpan(t.end_time);
    let start = getTimeSpan(t.start_time);
    u64_to_i64_wrapped(end.wrapping_sub(start))
}

/// Extrapolates the playback position: `reported` when not playing,
/// `(now - lastUpdated) + reported` while playing, with an unreadable
/// `lastUpdated` collapsing the elapsed delta to zero.
pub fn positionMs(is_playing: bool, reported: u64, now_ms: u64, last_updated: Option<u64>) -> (r:
    i64)
    ensures
        r == spec_position_ms(is_playing, reported, now_ms, last_updated),
        !is_playing && reported <= i64::MAX ==> r == reported,
        is_playing && last_updated is Some && last_updated->0 <= now_ms && now_ms
            - last_updated->0 + reported <= i64::MAX ==> r == now_ms - last_updated->0
            + reported,
        is_playing && last_updated is None && reported <= i64::MAX ==> r == reported,
{
    if is_playing {
        let lu: u64 = match last_updated {
            Some(t) => t,
            None => now_ms,
        };
        let elapsed: u64 = now_ms.wrapping_sub(lu);
        u64_to_i64_wrapped(elapsed.wrapping_add(reported))
    } else {
        u64_to_i64_wrapped(reported)
    }
}

/// Extrapolation only moves the position forward: with one session state and
/// two observation times, the later observation never reports an earlier
/// position, provided the quantities stay in the signed 64-bit range.
pub proof fn lemma_position_extrapolation_monotonic(
    reported: u64,
    now1: u64,
    now2: u64,
    last_updated: Option<u64>,
)
    requires
        now1 <= now2,
        reported <= i64::MAX,
        last_updated matches Some(lu) ==> lu <= now1 && now2 - lu + reported <= i64::MAX,
    ensures
        spec_position_ms(true, reported, now1, last_updated) <= spec_position_ms(
            true,
            reported,
            now2,
            last_updated,
        ),
{
}

} // verus!
