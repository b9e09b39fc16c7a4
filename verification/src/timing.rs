use crate::chain::epoch_duration;
use vstd::prelude::*;

verus! {

/// `x` clamped to the range of `i64`, as the saturating operations of `i64` do.
pub open spec fn clamp_i64(x: int) -> int {
    if x > i64::MAX {
        i64::MAX as int
    } else if x < i64::MIN {
        i64::MIN as int
    } else {
        x
    }
}

/// The value of `x as i64` for a `u64` (two's complement reinterpretation).
pub open spec fn u64_as_i64(x: u64) -> int {
    if x <= i64::MAX {
        x as int
    } else {
        x - 0x1_0000_0000_0000_0000int
    }
}

/// Seconds after the last accepted hash during which a new hash is expected.
pub const HASH_WINDOW_SECS: i64 = 60;

/// Least number of seconds a mining round is given.
pub const MIN_CUTOFF_SECS: i64 = 50;

/// Seconds before the end of an epoch at which a reset is already worth sending.
pub const RESET_BUFFER_SECS: i64 = 5;

/// The number of seconds left for hashing, before `max(50)`.
pub open spec fn raw_cutoff(last_hash_at: i64, buffer_time: u64, now: i64) -> int {
    clamp_i64(
        clamp_i64(clamp_i64(last_hash_at + HASH_WINDOW_SECS) - u64_as_i64(buffer_time)) - now,
    )
}

/// How long a mining round may hash: the seconds left until one minute after
/// the last accepted hash, less the buffer, and never less than 50.
pub open spec fn cutoff_secs(last_hash_at: i64, buffer_time: u64, now: i64) -> int {
    let t = raw_cutoff(last_hash_at, buffer_time, now);
    if t < MIN_CUTOFF_SECS {
        MIN_CUTOFF_SECS as int
    } else {
        t
    }
}

/// Whether the epoch that started at `last_reset_at` is (almost) over at `now`.
pub open spec fn reset_due(last_reset_at: i64, epoch: i64, now: i64) -> bool {
    clamp_i64(clamp_i64(last_reset_at + epoch) - RESET_BUFFER_SECS) <= now
}

/// `a + b`, saturating at the bounds of `i64`.
pub fn saturating_add_i64(a: i64, b: i64) -> (r: i64)
    ensures
        r == clamp_i64(a + b),
{
    match a.checked_add(b) {
        Some(v) => v,
        None => if b > 0 {
            i64::MAX
        } else {
            i64::MIN
        },
    }
}

/// `a - b`, saturating at the bounds of `i64`.
pub fn saturating_sub_i64(a: i64, b: i64) -> (r: i64)
    ensures
        r == clamp_i64(a - b),
{
    match a.checked_sub(b) {
        Some(v) => v,
        None => if b < 0 {
            i64::MAX
        } else {
            i64::MIN
        },
    }
}

/// The two's complement reinterpretation of a `u64` as `i64`.
pub fn u64_to_i64_wrapping(x: u64) -> (r: i64)
    ensures
        r == u64_as_i64(x),
{
    if x <= i64::MAX as u64 {
        x as i64
    } else {
        let high: u64 = x - 0x8000_0000_0000_0000u64;
        (high as i64) + i64::MIN
    }
}

/// The length in seconds of a mining round that starts at `now`, for a proof
/// whose last hash was accepted at `last_hash_at`.
pub fn get_cutoff(last_hash_at: i64, buffer_time: u64, now: i64) -> (r: u64)
    ensures
        r == cutoff_secs(last_hash_at, buffer_time, now),
        r >= MIN_CUTOFF_SECS,
{
    let end = saturating_add_i64(last_hash_at, HASH_WINDOW_SECS);
    let buffered = saturating_sub_i64(end, u64_to_i64_wrapping(buffer_time));
    let left = saturating_sub_i64(buffered, now);
    if left < MIN_CUTOFF_SECS {
        MIN_CUTOFF_SECS as u64
    } else {
        left as u64
    }
}

/// The length of an epoch in seconds, as the ORE program defines it.
pub const EPOCH_SECS: i64 = 300;

/// Whether the epoch that started at `last_reset_at` ends within five seconds
/// of `now` (or has ended), so that a reset instruction is worth sending.
pub fn should_reset(last_reset_at: i64, now: i64) -> (r: bool)
    ensures
        r == reset_due(last_reset_at, EPOCH_SECS, now),
        last_reset_at + 300 <= i64::MAX ==> (r <==> now >= last_reset_at + 295),
        last_reset_at + 300 > i64::MAX ==> (r <==> now >= i64::MAX - 5),
{
    proof {
        lemma_reset_due_plain(last_reset_at, now);
    }
    let end = saturating_add_i64(last_reset_at, epoch_duration());
    saturating_sub_i64(end, RESET_BUFFER_SECS) <= now
}

/// A reset is due exactly from 295 seconds after the last reset (five
/// seconds before the 300-second epoch ends), the end saturating at the
/// greatest `i64`.
pub proof fn lemma_reset_due_plain(last_reset_at: i64, now: i64)
    ensures
        last_reset_at + 300 <= i64::MAX ==> (reset_due(last_reset_at, EPOCH_SECS, now) <==> now
            >= last_reset_at + 295),
        last_reset_at + 300 > i64::MAX ==> (reset_due(last_reset_at, EPOCH_SECS, now) <==> now
            >= i64::MAX - 5),
{
}

/// Two resets further apart are due further apart: a later last reset is
/// never due earlier.
pub proof fn lemma_reset_due_later_start(l1: i64, l2: i64, now: i64)
    requires
        l1 <= l2,
        reset_due(l2, EPOCH_SECS, now),
    ensures
        reset_due(l1, EPOCH_SECS, now),
{
}

/// A longer wait never lengthens the round: the cutoff does not grow with `now`.
pub proof fn lemma_cutoff_nonincreasing(last_hash_at: i64, buffer_time: u64, now1: i64, now2: i64)
    requires
        now1 <= now2,
    ensures
        cutoff_secs(last_hash_at, buffer_time, now2) <= cutoff_secs(last_hash_at, buffer_time, now1),
{
}

/// Away from the bounds of `i64`, the cutoff is the plain difference
/// `last_hash_at + 60 - buffer_time - now`, raised to 50.
pub proof fn lemma_cutoff_unsaturated(last_hash_at: i64, buffer_time: u64, now: i64)
    requires
        buffer_time <= i64::MAX,
        i64::MIN <= last_hash_at + HASH_WINDOW_SECS - buffer_time - now <= i64::MAX,
        last_hash_at + HASH_WINDOW_SECS <= i64::MAX,
        i64::MIN <= last_hash_at + HASH_WINDOW_SECS - buffer_time,
    ensures
        cutoff_secs(last_hash_at, buffer_time, now) == (if last_hash_at + HASH_WINDOW_SECS
            - buffer_time - now < MIN_CUTOFF_SECS {
            MIN_CUTOFF_SECS as int
        } else {
            last_hash_at + HASH_WINDOW_SECS - buffer_time - now
        }),
{
}

/// Once a reset is due it stays due as time goes on.
pub proof fn lemma_reset_stays_due(last_reset_at: i64, epoch: i64, now1: i64, now2: i64)
    requires
        now1 <= now2,
        reset_due(last_reset_at, epoch, now1),
    ensures
        reset_due(last_reset_at, epoch, now2),
{
}

} // verus!
