use vstd::prelude::*;

verus! {

/// Milliseconds in one minute, hour and day of UTC time.
pub const MS_PER_MINUTE: i64 = 60000;
pub const MS_PER_HOUR: i64 = 3600000;
pub const MS_PER_DAY: i64 = 86400000;

/// Whole UTC days since the Unix epoch (rounding towards minus infinity)
/// of a millisecond timestamp: two timestamps share a calendar date
/// exactly when they share this number.
pub open spec fn spec_utc_day(ms: int) -> int {
    ms / (MS_PER_DAY as int)
}

/// The UTC hour of day (0..=23) of a millisecond timestamp.
pub open spec fn spec_utc_hour(ms: int) -> int {
    (ms / (MS_PER_HOUR as int)) % 24
}

/// `x / d` rounded towards zero.
pub open spec fn spec_div_trunc(x: int, d: int) -> int {
    if x >= 0 {
        x / d
    } else {
        -((-x) / d)
    }
}

/// Whole minutes elapsed from `from_ms` to `to_ms`, rounded towards zero
/// (negative when `to_ms` is earlier).
pub open spec fn spec_minutes_between(from_ms: int, to_ms: int) -> int {
    spec_div_trunc(to_ms - from_ms, MS_PER_MINUTE as int)
}

/// Whole seconds elapsed from `from_ms` to `to_ms`, rounded towards zero.
pub open spec fn spec_seconds_between(from_ms: int, to_ms: int) -> int {
    spec_div_trunc(to_ms - from_ms, 1000)
}

/// `a / d` rounded towards minus infinity, for a positive divisor.
pub fn floor_div(a: i64, d: i64) -> (q: i64)
    requires
        d > 0,
    ensures
        q as int == a as int / d as int,
{
    if a >= 0 {
        let q = (a as u64 / d as u64) as i64;
        q
    } else {
        let n: u64 = (-(a as i128) - 1) as u64;
        let q0: u64 = n / d as u64;
        proof {
            let ai = a as int;
            let di = d as int;
            let ni = n as int;
            let qi = q0 as int;
            assert(ni == -ai - 1);
            assert(qi == ni / di);
            assert(qi * di <= ni < qi * di + di) by (nonlinear_arith)
                requires qi == ni / di, di > 0, ni >= 0;
            assert((-qi - 1) * di <= ai < (-qi - 1) * di + di) by (nonlinear_arith)
                requires qi * di <= ni < qi * di + di, ni == -ai - 1;
            assert(ai / di == -qi - 1) by (nonlinear_arith)
                requires (-qi - 1) * di <= ai < (-qi - 1) * di + di, di > 0;
            assert(qi <= ni) by (nonlinear_arith)
                requires qi == ni / di, di > 0, ni >= 0;
        }
        (-(q0 as i128) - 1) as i64
    }
}

/// `x / d` rounded towards zero, for a positive divisor.
pub fn div_trunc(x: i128, d: i128) -> (q: i128)
    requires
        d > 0,
        -0x7fff_ffff_ffff_ffff_ffff_ffff_ffff_ffff <= x,
    ensures
        q as int == spec_div_trunc(x as int, d as int),
{
    if x >= 0 {
        (x as u128 / d as u128) as i128
    } else {
        let m: u128 = (-x) as u128 / d as u128;
        proof {
            assert(m as int <= (-x) as int) by (nonlinear_arith)
                requires m as int == ((-x) as int) / (d as int), d > 0, -x >= 0;
        }
        -(m as i128)
    }
}

/// The UTC calendar day number of a millisecond timestamp.
pub fn utc_day(ms: i64) -> (day: i64)
    ensures
        day as int == spec_utc_day(ms as int),
{
    floor_div(ms, MS_PER_DAY)
}

/// The UTC hour of day of a millisecond timestamp.
pub fn utc_hour(ms: i64) -> (hour: u32)
    ensures
        hour as int == spec_utc_hour(ms as int),
        hour < 24,
{
    let h = floor_div(ms, MS_PER_HOUR);
    let r: i64 = if h >= 0 {
        h % 24
    } else {
        let m = (-(h as i128) - 1) as u64 % 24;
        proof {
            let hi = h as int;
            let mi = m as int;
            assert(mi == (-hi - 1) % 24);
            assert((23 - mi) == hi % 24) by (nonlinear_arith)
                requires mi == (-hi - 1) % 24, hi < 0;
        }
        23 - m as i64
    };
    r as u32
}

/// Whole minutes from `from_ms` to `to_ms`, rounded towards zero.
pub fn minutes_between(from_ms: i64, to_ms: i64) -> (m: i64)
    ensures
        m as int == spec_minutes_between(from_ms as int, to_ms as int),
{
    let d: i128 = to_ms as i128 - from_ms as i128;
    let q = div_trunc(d, MS_PER_MINUTE as i128);
    proof {
        let di = d as int;
        if di >= 0 {
            assert(di / 60000 <= di) by (nonlinear_arith) requires di >= 0;
        } else {
            assert((-di) / 60000 <= -di) by (nonlinear_arith) requires -di >= 0;
        }
    }
    q as i64
}

/// Whole seconds from `from_ms` to `to_ms`, rounded towards zero.
pub fn seconds_between(from_ms: i64, to_ms: i64) -> (s: i64)
    ensures
        s as int == spec_seconds_between(from_ms as int, to_ms as int),
{
    let d: i128 = to_ms as i128 - from_ms as i128;
    let q = div_trunc(d, 1000);
    proof {
        let di = d as int;
        if di >= 0 {
            assert(di / 1000 <= di) by (nonlinear_arith) requires di >= 0;
        } else {
            assert((-di) / 1000 <= -di) by (nonlinear_arith) requires -di >= 0;
        }
    }
    q as i64
}


/// A timestamp lies within its UTC day, the next day's timestamps have the
/// next day number, and its hour is the whole hours elapsed in that day.
pub proof fn lemma_utc_calendar(ms: int)
    ensures
        spec_utc_day(ms) * 86400000 <= ms < spec_utc_day(ms) * 86400000 + 86400000,
        spec_utc_day(ms + 86400000) == spec_utc_day(ms) + 1,
        0 <= spec_utc_hour(ms) < 24,
        spec_utc_hour(ms) == (ms - spec_utc_day(ms) * 86400000) / 3600000,
{
    let d = ms / 86400000;
    assert(d * 86400000 <= ms < d * 86400000 + 86400000) by (nonlinear_arith)
        requires d == ms / 86400000;
    assert((ms + 86400000) / 86400000 == d + 1) by (nonlinear_arith)
        requires d * 86400000 <= ms < d * 86400000 + 86400000;
    let h = ms / 3600000;
    assert(h * 3600000 <= ms < h * 3600000 + 3600000) by (nonlinear_arith)
        requires h == ms / 3600000;
    let w = ms - d * 86400000;
    assert(h == d * 24 + w / 3600000) by (nonlinear_arith)
        requires h * 3600000 <= ms < h * 3600000 + 3600000, w == ms - d * 86400000, 0 <= w < 86400000;
    assert(0 <= w / 3600000 < 24) by (nonlinear_arith)
        requires 0 <= w < 86400000;
    assert((d * 24 + w / 3600000) % 24 == w / 3600000) by (nonlinear_arith)
        requires 0 <= w / 3600000 < 24;
}

/// Whole minutes (seconds) between two times: their magnitude is the
/// elapsed time divided by a minute (a second), rounded down, and their
/// sign is that of the elapsed time.
pub proof fn lemma_elapsed_units(from_ms: int, to_ms: int)
    ensures
        ({
            let d = to_ms - from_ms;
            let m = spec_minutes_between(from_ms, to_ms);
            let s = spec_seconds_between(from_ms, to_ms);
            &&& d >= 0 ==> 0 <= m && m * 60000 <= d < m * 60000 + 60000
            &&& d < 0 ==> m <= 0 && (-m) * 60000 <= -d < (-m) * 60000 + 60000
            &&& d >= 0 ==> 0 <= s && s * 1000 <= d < s * 1000 + 1000
            &&& d < 0 ==> s <= 0 && (-s) * 1000 <= -d < (-s) * 1000 + 1000
        }),
{
    let d = to_ms - from_ms;
    if d >= 0 {
        assert(0 <= d / 60000 && (d / 60000) * 60000 <= d < (d / 60000) * 60000 + 60000) by (nonlinear_arith)
            requires d >= 0;
        assert(0 <= d / 1000 && (d / 1000) * 1000 <= d < (d / 1000) * 1000 + 1000) by (nonlinear_arith)
            requires d >= 0;
    } else {
        let e = -d;
        assert(0 <= e / 60000 && (e / 60000) * 60000 <= e < (e / 60000) * 60000 + 60000) by (nonlinear_arith)
            requires e > 0;
        assert(0 <= e / 1000 && (e / 1000) * 1000 <= e < (e / 1000) * 1000 + 1000) by (nonlinear_arith)
            requires e > 0;
    }
}

} // verus!
