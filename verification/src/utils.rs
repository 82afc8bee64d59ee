//! Second counts: reading the clock, spans between two readings, and the
//! split of a span into hours and minutes.

use vstd::prelude::*;
use std::time::SystemTime;
use std::time::UNIX_EPOCH;

verus! {

/// Whole seconds, either since the Unix epoch or as a length of time.
pub type SecType = u64;

/// The length of a working day, seven and a half hours, in seconds.
pub const DAY_LENGTH_SECS: SecType = 7 * 60 * 60 + 30 * 60;

/// The length of the span from `t_start` to `t_end`; empty when the end
/// does not lie after the start.
pub open spec fn span_secs(t_start: SecType, t_end: SecType) -> nat {
    if t_start <= t_end {
        (t_end - t_start) as nat
    } else {
        0
    }
}

/// The whole hours in `secs`.
pub open spec fn hours_of(secs: nat) -> nat {
    secs / 3600
}

/// The whole minutes in `secs` beyond its whole hours; always below 60.
pub open spec fn minutes_of(secs: nat) -> nat {
    (secs % 3600) / 60
}

/// The sum of two second counts, held at the largest `SecType`.
pub open spec fn capped_sum(a: nat, b: nat) -> nat {
    if a + b <= u64::MAX {
        a + b
    } else {
        u64::MAX as nat
    }
}

/// Splits a second count into hours and minutes. The seconds beyond the last
/// whole minute are dropped; the hours are kept modulo 256, the size of the
/// result's first component.
pub fn secs_to_hours_minutes(secs: SecType) -> (hm: (u8, u8))
    ensures
        hm.0 as nat == hours_of(secs as nat) % 256,
        hm.1 as nat == minutes_of(secs as nat),
        hm.1 < 60,
{
    let hours: u64 = secs / (60 * 60);
    let minutes: u64 = (secs % (60 * 60)) / 60;
    assert(hours as u8 == hours % 256) by (bit_vector);
    (#[verifier::truncate] (hours as u8), minutes as u8)
}

/// Reads the system clock through `SystemTime::now` and gives the whole
/// seconds since the Unix epoch. Nothing is claimed of the value: the clock
/// may be set to anything. A clock that reads before the epoch gives the
/// empty duration, and so 0.
#[verifier::external_body]
pub fn sys_now_secs() -> (now: SecType) {
    SystemTime::now().duration_since(UNIX_EPOCH).unwrap_or_default().as_secs()
}

/// The seconds from `t_start` to `t_end`.
pub fn elapsed_secs(t_start: SecType, t_end: SecType) -> (secs: SecType)
    requires
        t_start <= t_end,
    ensures
        secs == t_end - t_start,
        secs as nat == span_secs(t_start, t_end),
{
    t_end - t_start
}

/// The seconds from `t_start` to the reading `now`; 0 when the clock reads
/// earlier than `t_start`.
pub fn elapsed_until(t_start: SecType, now: SecType) -> (secs: SecType)
    ensures
        secs as nat == span_secs(t_start, now),
{
    if t_start <= now {
        elapsed_secs(t_start, now)
    } else {
        0
    }
}

/// The seconds from `t_start` to the present reading of the system clock;
/// 0 when the clock reads earlier than `t_start`.
pub fn elapsed_since(t_start: SecType) -> (secs: SecType)
    ensures
        exists|now: SecType| secs as nat == #[trigger] span_secs(t_start, now),
{
    let now = sys_now_secs();
    elapsed_until(t_start, now)
}

/// `a + b`, held at the largest `SecType` where the sum would pass it.
pub fn add_capped(a: SecType, b: SecType) -> (sum: SecType)
    ensures
        sum as nat == capped_sum(a as nat, b as nat),
{
    if b <= u64::MAX - a {
        a + b
    } else {
        u64::MAX
    }
}

} // verus!
