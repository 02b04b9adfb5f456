//! Instants in UTC as plain values, calendar arithmetic on them, and the calls into
//! `chrono` for what needs the Gregorian calendar or its text formats.

use chrono::Datelike;
use vstd::prelude::*;

verus! {

/// Seconds in a day.
pub const SECS_PER_DAY: i64 = 86400;

/// Seconds in an hour.
pub const SECS_PER_HOUR: i64 = 3600;

/// The earliest Unix timestamp that `chrono` represents (1 January of year -262143).
pub const MIN_TIMESTAMP: i64 = -8334601228800;

/// The latest Unix timestamp that `chrono` represents (31 December of year 262142, 23:59:59).
pub const MAX_TIMESTAMP: i64 = 8210266876799;

/// An instant in UTC: whole seconds since the Unix epoch and the nanoseconds after them,
/// the two parts of a `chrono::DateTime<Utc>`.
#[derive(Clone, Copy, Debug, PartialEq, Eq, Structural)]
pub struct UtcTime {
    pub secs: i64,
    pub nanos: u32,
}

impl UtcTime {
    /// The instant lies in `chrono`'s range and its nanoseconds are below one second.
    pub open spec fn wf(self) -> bool {
        &&& MIN_TIMESTAMP <= self.secs <= MAX_TIMESTAMP
        &&& self.nanos < 1_000_000_000
    }

    /// The instant with the given parts, or `None` where they do not make one.
    pub fn from_parts(secs: i64, nanos: u32) -> (r: Option<UtcTime>)
        ensures
            r is Some <==> (UtcTime { secs, nanos }).wf(),
            r matches Some(t) ==> t.secs == secs && t.nanos == nanos,
    {
        if MIN_TIMESTAMP <= secs && secs <= MAX_TIMESTAMP && nanos < 1_000_000_000 {
            Some(UtcTime { secs, nanos })
        } else {
            None
        }
    }

    /// The Unix timestamp in whole seconds, as `DateTime::timestamp` gives it.
    pub fn timestamp(&self) -> (r: i64)
        ensures
            r == self.secs,
    {
        self.secs
    }
}

/// The number of the day that holds the instant `secs`, counted from 1 January 1970.
pub open spec fn day_number(secs: int) -> int {
    secs / SECS_PER_DAY as int
}

/// The first second (midnight) of the day that holds `secs`.
pub open spec fn day_start(secs: int) -> int {
    day_number(secs) * SECS_PER_DAY as int
}

/// The hour of the day (0 to 23) at `secs`.
pub open spec fn hour_of_day(secs: int) -> int {
    (secs % SECS_PER_DAY as int) / SECS_PER_HOUR as int
}

/// The weekday at `secs` counted from Monday (0) to Sunday (6); 1 January 1970 was a
/// Thursday.
pub open spec fn weekday_from_monday(secs: int) -> int {
    (day_number(secs) + 3) % 7
}

/// Euclidean quotient and remainder of `x` by a positive `d`.
fn div_mod_euclid(x: i64, d: i64) -> (r: (i64, i64))
    requires
        d > 0,
        x > i64::MIN,
    ensures
        r.0 == x as int / d as int,
        r.1 == x as int % d as int,
{
    if x >= 0 {
        let q = ((x as u64) / (d as u64)) as i64;
        let m = ((x as u64) % (d as u64)) as i64;
        (q, m)
    } else {
        let m = (-(x + 1)) as u64;
        let mq = m / (d as u64);
        let mr = m % (d as u64);
        proof {
            vstd::arithmetic::div_mod::lemma_fundamental_div_mod(m as int, d as int);
            assert(m as int == d as int * mq as int + mr as int);
            assert(x as int == (-(mq as int) - 1) * (d as int) + (d as int - mr as int - 1))
                by (nonlinear_arith)
                requires
                    m as int == d as int * mq as int + mr as int,
                    x as int == -(m as int) - 1,
            ;
            vstd::arithmetic::div_mod::lemma_fundamental_div_mod_converse(
                x as int,
                d as int,
                -(mq as int) - 1,
                d as int - mr as int - 1,
            );
        }
        (-(mq as i64) - 1, d - 1 - mr as i64)
    }
}

/// The day number of `secs`.
pub fn day_number_of(secs: i64) -> (r: i64)
    requires
        secs > i64::MIN,
    ensures
        r == day_number(secs as int),
{
    div_mod_euclid(secs, SECS_PER_DAY).0
}

/// Midnight of the day that holds `secs`, as `date_naive().and_hms_opt(0, 0, 0)` gives it.
pub fn day_start_of(secs: i64) -> (r: i64)
    requires
        MIN_TIMESTAMP <= secs <= MAX_TIMESTAMP + 64 * SECS_PER_DAY,
    ensures
        r == day_start(secs as int),
        secs - SECS_PER_DAY < r <= secs,
{
    let (q, m) = div_mod_euclid(secs, SECS_PER_DAY);
    proof {
        vstd::arithmetic::div_mod::lemma_fundamental_div_mod(secs as int, SECS_PER_DAY as int);
    }
    q * SECS_PER_DAY
}

/// The hour of the day at `secs`, as `Timelike::hour` gives it.
pub fn hour_of(secs: i64) -> (r: i64)
    requires
        secs > i64::MIN,
    ensures
        r == hour_of_day(secs as int),
        0 <= r < 24,
{
    let (_, m) = div_mod_euclid(secs, SECS_PER_DAY);
    m / SECS_PER_HOUR
}

/// The weekday at `secs` counted from Monday, as `weekday().num_days_from_monday()` gives
/// it.
pub fn weekday_of(secs: i64) -> (r: i64)
    requires
        secs > i64::MIN,
    ensures
        r == weekday_from_monday(secs as int),
        0 <= r < 7,
{
    let day = day_number_of(secs);
    proof {
        vstd::arithmetic::div_mod::lemma_fundamental_div_mod(secs as int, SECS_PER_DAY as int);
    }
    div_mod_euclid(day + 3, 7).1
}

/// The day of a 400-year era (which starts on 1 March) into its day of the year, also
/// counted from 1 March: `doe` less the days of the whole years before it.
pub open spec fn day_of_year(doe: int) -> int {
    let yoe = (doe - doe / 1460 + doe / 36524 - doe / 146096) / 365;
    doe - (365 * yoe + yoe / 4 - yoe / 100)
}

/// The month (1 to 12) and day of the month of the day numbered `days` from 1 January
/// 1970 in the proleptic Gregorian calendar: the day of its 400-year era, counted from 1
/// March, then its day of the year, then the month of that day (March first).
pub open spec fn month_day_of_days(days: int) -> (int, int) {
    let doy = day_of_year((days + 719468) % 146097);
    let mp = (5 * doy + 2) / 153;
    (if mp < 10 { mp + 3 } else { mp - 9 }, doy - (153 * mp + 2) / 5 + 1)
}

/// The calendar month and day of the month of the instant `secs`.
pub open spec fn civil_month_day(secs: i64) -> (u32, u32) {
    let md = month_day_of_days(day_number(secs as int));
    (md.0 as u32, md.1 as u32)
}

/// A day of an era has a day of the year from 0 to 365.
proof fn lemma_day_of_year(doe: int)
    requires
        0 <= doe < 146097,
    ensures
        0 <= day_of_year(doe) <= 365,
{
    if doe == 146096 {
        vstd::arithmetic::div_mod::lemma_fundamental_div_mod_converse(doe, 1460, 100, 96);
        vstd::arithmetic::div_mod::lemma_fundamental_div_mod_converse(doe, 36524, 4, 0);
        vstd::arithmetic::div_mod::lemma_fundamental_div_mod_converse(doe, 146096, 1, 0);
        vstd::arithmetic::div_mod::lemma_fundamental_div_mod_converse(145999, 365, 399, 364);
        vstd::arithmetic::div_mod::lemma_fundamental_div_mod_converse(399, 4, 99, 3);
        vstd::arithmetic::div_mod::lemma_fundamental_div_mod_converse(399, 100, 3, 99);
    } else {
        vstd::arithmetic::div_mod::lemma_fundamental_div_mod(doe, 36524);
        let k = doe / 36524;
        let r = doe % 36524;
        vstd::arithmetic::div_mod::lemma_fundamental_div_mod(r, 1461);
        let j = r / 1461;
        let s = r % 1461;
        assert(0 <= k <= 3);
        assert(0 <= j <= 24);
        let e: int = if j + s + 24 * k < 1460 { 0 } else { 1 };
        vstd::arithmetic::div_mod::lemma_fundamental_div_mod_converse(
            doe,
            1460,
            25 * k + j + e,
            j + s + 24 * k - 1460 * e,
        );
        vstd::arithmetic::div_mod::lemma_fundamental_div_mod_converse(doe, 146096, 0, doe);
        assert(0 <= s - e <= 1459);
        vstd::arithmetic::div_mod::lemma_fundamental_div_mod(s - e, 365);
        let t = (s - e) / 365;
        let q = (s - e) % 365;
        assert(0 <= t <= 3);
        let n = doe - doe / 1460 + doe / 36524 - doe / 146096;
        assert(n == 365 * (100 * k + 4 * j + t) + q);
        vstd::arithmetic::div_mod::lemma_fundamental_div_mod_converse(
            n,
            365,
            100 * k + 4 * j + t,
            q,
        );
        let yoe = 100 * k + 4 * j + t;
        vstd::arithmetic::div_mod::lemma_fundamental_div_mod_converse(yoe, 4, 25 * k + j, t);
        vstd::arithmetic::div_mod::lemma_fundamental_div_mod_converse(yoe, 100, k, 4 * j + t);
        assert(day_of_year(doe) == q + e);
    }
}

/// Every day number has a month from 1 to 12 and a day of the month from 1 to 31.
pub proof fn lemma_month_day_ranges(days: int)
    ensures
        1 <= month_day_of_days(days).0 <= 12,
        1 <= month_day_of_days(days).1 <= 31,
{
    let z = days + 719468;
    vstd::arithmetic::div_mod::lemma_fundamental_div_mod(z, 146097);
    lemma_day_of_year(z % 146097);
    let doy = day_of_year(z % 146097);
    vstd::arithmetic::div_mod::lemma_fundamental_div_mod(5 * doy + 2, 153);
    let mp = (5 * doy + 2) / 153;
    assert(0 <= mp <= 11);
    vstd::arithmetic::div_mod::lemma_fundamental_div_mod(153 * mp + 2, 5);
    let g = (153 * mp + 2) / 5;
    assert(0 <= doy - g <= 30);
}

/// The RFC 3339 text of an instant, as `DateTime::<Utc>::to_rfc3339` writes it.
pub uninterp spec fn rfc3339_text(secs: i64, nanos: u32) -> Seq<char>;

/// The text of an instant as `DateTime<Utc>`'s `Display` writes it.
pub uninterp spec fn utc_display_text(secs: i64, nanos: u32) -> Seq<char>;

/// Calls `chrono::DateTime::<Utc>::from_timestamp` and reads the date's `month()` and
/// `day()`. Trusted: the result is `civil_month_day(secs)`, the month and day of the
/// proleptic Gregorian calendar that `chrono` documents.
#[verifier::external_body]
pub(crate) fn month_day_of(secs: i64) -> (r: (u32, u32))
    requires
        MIN_TIMESTAMP <= secs <= MAX_TIMESTAMP,
    ensures
        r == civil_month_day(secs),
{
    let date = chrono::DateTime::<chrono::Utc>::from_timestamp(secs, 0).unwrap().date_naive();
    (date.month(), date.day())
}

/// Calls `chrono::DateTime::<Utc>::to_rfc3339`. Trusted: the text is
/// `rfc3339_text(t.secs, t.nanos)`; nothing more is claimed of its form.
#[verifier::external_body]
pub(crate) fn format_rfc3339(t: UtcTime) -> (r: String)
    requires
        t.wf(),
    ensures
        r@ == rfc3339_text(t.secs, t.nanos),
{
    chrono::DateTime::<chrono::Utc>::from_timestamp(t.secs, t.nanos).unwrap().to_rfc3339()
}

/// Formats a `chrono::DateTime<Utc>` with its `Display` impl. Trusted: the text is
/// `utc_display_text(t.secs, t.nanos)`; nothing more is claimed of its form.
#[verifier::external_body]
pub(crate) fn format_utc_display(t: UtcTime) -> (r: String)
    requires
        t.wf(),
    ensures
        r@ == utc_display_text(t.secs, t.nanos),
{
    format!("{}", chrono::DateTime::<chrono::Utc>::from_timestamp(t.secs, t.nanos).unwrap())
}

} // verus!
