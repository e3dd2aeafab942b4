//! NTP timestamps (UQ32.32 fixed point since 1900-01-01).
use vstd::prelude::*;
use std::time::{Duration, SystemTime};

verus! {

/// Seconds between the NTP epoch (1900-01-01) and the Unix epoch (1970-01-01).
pub const NTP_EPOCH_OFFSET: u64 = 2_208_988_800;

/// The 64-bit NTP timestamp of `secs` seconds and `nanos` nanoseconds after
/// the Unix epoch: the upper 32 bits hold the NTP seconds (modulo 2^32, as
/// NTP eras wrap), the lower 32 bits the fraction `nanos / 10^9` scaled to
/// 2^32 and rounded down.
pub open spec fn ntp_timestamp(secs: u64, nanos: u32) -> int {
    ((secs + NTP_EPOCH_OFFSET) % 0x1_0000_0000) * 0x1_0000_0000 + (nanos as int) * 0x1_0000_0000
        / 1_000_000_000
}

/// Computes the NTP timestamp of a time given as whole seconds and
/// nanoseconds after the Unix epoch.
pub fn ntp_from_unix_parts(secs: u64, nanos: u32) -> (r: u64)
    requires
        nanos < 1_000_000_000,
    ensures
        r == ntp_timestamp(secs, nanos),
{
    let ntp_secs = secs.wrapping_add(NTP_EPOCH_OFFSET);
    let n = nanos as u64;
    let shifted = n << 32;
    assert(n < 1_000_000_000 ==> n << 32 == n * 0x1_0000_0000) by (bit_vector);
    let frac = shifted / 1_000_000_000;
    assert(frac < 0x1_0000_0000) by (nonlinear_arith)
        requires
            frac == shifted / 1_000_000_000,
            shifted == n * 0x1_0000_0000,
            n < 1_000_000_000,
    ;
    let r = (ntp_secs << 32) | frac;
    assert(frac < 0x1_0000_0000 ==> (ntp_secs << 32) | frac == (ntp_secs % 0x1_0000_0000)
        * 0x1_0000_0000 + frac) by (bit_vector);
    assert(ntp_secs == (secs + NTP_EPOCH_OFFSET) % 0x1_0000_0000_0000_0000);
    assert(ntp_secs % 0x1_0000_0000 == (secs + NTP_EPOCH_OFFSET) % 0x1_0000_0000) by (
    nonlinear_arith)
        requires
            ntp_secs == (secs + NTP_EPOCH_OFFSET) % 0x1_0000_0000_0000_0000,
            secs + NTP_EPOCH_OFFSET >= 0,
    ;
    r
}

#[verifier::external_type_specification]
#[verifier::external_body]
pub struct ExSystemTime(SystemTime);

/// The time elapsed from the Unix epoch to `t`, as std's
/// `SystemTime::duration_since(UNIX_EPOCH)` finds it; `None` for a time
/// before the epoch.
pub uninterp spec fn unix_duration(t: SystemTime) -> Option<Duration>;

/// The whole seconds of a duration (std's `Duration::as_secs`).
pub uninterp spec fn duration_whole_secs(d: Duration) -> u64;

/// The nanoseconds past the whole seconds of a duration (std's
/// `Duration::subsec_nanos`).
pub uninterp spec fn duration_nanos(d: Duration) -> u32;

/// std's `SystemTime::duration_since(UNIX_EPOCH)`, its error turned into
/// `None`. The result depends on `t` alone and is named `unix_duration`.
#[verifier::external_body]
fn since_unix_epoch(t: SystemTime) -> (r: Option<Duration>)
    ensures
        r == unix_duration(t),
{
    t.duration_since(std::time::UNIX_EPOCH).ok()
}

/// std's `Duration::as_secs`, named `duration_whole_secs`.
#[verifier::external_body]
fn duration_secs(d: &Duration) -> (r: u64)
    ensures
        r == duration_whole_secs(*d),
{
    d.as_secs()
}

/// std's `Duration::subsec_nanos`, named `duration_nanos`; std documents it
/// to be below one billion.
#[verifier::external_body]
fn duration_subsec_nanos(d: &Duration) -> (n: u32)
    ensures
        n == duration_nanos(*d),
        n < 1_000_000_000,
{
    d.subsec_nanos()
}

/// The NTP timestamp of `t`: that of its seconds and nanoseconds after the
/// Unix epoch, or of the epoch itself for a time before it.
pub open spec fn system_time_ntp(t: SystemTime) -> int {
    match unix_duration(t) {
        Some(d) => ntp_timestamp(duration_whole_secs(d), duration_nanos(d)),
        None => ntp_timestamp(0, 0),
    }
}

/// Converts a `SystemTime` into a 64-bit NTP timestamp; a time before the
/// Unix epoch counts as the epoch itself.
pub fn system_time_to_ntp(t: SystemTime) -> (r: u64)
    ensures
        r == system_time_ntp(t),
{
    let (secs, nanos) = match since_unix_epoch(t) {
        Some(d) => (duration_secs(&d), duration_subsec_nanos(&d)),
        None => (0u64, 0u32),
    };
    ntp_from_unix_parts(secs, nanos)
}

/// Law: within one NTP era, a later time never gets a smaller timestamp.
pub proof fn law_ntp_monotonic(secs1: u64, nanos1: u32, secs2: u64, nanos2: u32)
    requires
        nanos1 < 1_000_000_000,
        nanos2 < 1_000_000_000,
        secs1 <= secs2,
        secs1 == secs2 ==> nanos1 <= nanos2,
        (secs1 + NTP_EPOCH_OFFSET) / 0x1_0000_0000 == (secs2 + NTP_EPOCH_OFFSET) / 0x1_0000_0000,
    ensures
        ntp_timestamp(secs1, nanos1) <= ntp_timestamp(secs2, nanos2),
{
    let a = secs1 + NTP_EPOCH_OFFSET;
    let b = secs2 + NTP_EPOCH_OFFSET;
    let f1 = (nanos1 as int) * 0x1_0000_0000 / 1_000_000_000;
    let f2 = (nanos2 as int) * 0x1_0000_0000 / 1_000_000_000;
    assert(0 <= f1 < 0x1_0000_0000 && 0 <= f2 < 0x1_0000_0000) by (nonlinear_arith)
        requires
            f1 == (nanos1 as int) * 0x1_0000_0000 / 1_000_000_000,
            f2 == (nanos2 as int) * 0x1_0000_0000 / 1_000_000_000,
            0 <= nanos1 < 1_000_000_000,
            0 <= nanos2 < 1_000_000_000,
    ;
    assert(nanos1 <= nanos2 ==> f1 <= f2) by (nonlinear_arith)
        requires
            f1 == (nanos1 as int) * 0x1_0000_0000 / 1_000_000_000,
            f2 == (nanos2 as int) * 0x1_0000_0000 / 1_000_000_000,
            nanos1 >= 0,
    ;
    assert(a % 0x1_0000_0000 <= b % 0x1_0000_0000 && (a < b ==> a % 0x1_0000_0000 < b
        % 0x1_0000_0000)) by (nonlinear_arith)
        requires
            a / 0x1_0000_0000 == b / 0x1_0000_0000,
            0 <= a <= b,
    ;
}

} // verus!
