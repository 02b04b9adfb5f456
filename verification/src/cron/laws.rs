//! What the next-instant computation gives for schedules of the common shapes: those that
//! fire every `n` seconds of every day, and those that fire once a week.

use crate::cron::field::law_star_allows_all;
use crate::cron::parser::{
    cron_weekday, date_fires, fires_at, law_next_is_first, lemma_next_time_is, lemma_within_day,
    next_time, parse_spec, search_end, time_fires, CronPattern,
};
use crate::text::ws_fields;
use crate::time::{civil_month_day, day_number, day_start, lemma_month_day_ranges, UtcTime};
use vstd::prelude::*;

verus! {

/// A pattern that fires exactly at the seconds `u` with `u % n == r` next fires at the
/// first such second after `from`, where that second lies in the searched span.
pub proof fn law_periodic_next(p: CronPattern, from: UtcTime, n: int, r: int)
    requires
        from.wf(),
        n > 0,
        0 <= r < n,
        from.secs + n <= search_end(from),
        forall|u: int| #[trigger] fires_at(p, u) <==> u % n == r,
    ensures
        next_time(p, from) == Some(
            UtcTime { secs: (((from.secs - r) / n + 1) * n + r) as i64, nanos: 0 },
        ),
{
    let x = from.secs - r;
    let q = x / n;
    let t = (q + 1) * n + r;
    vstd::arithmetic::div_mod::lemma_fundamental_div_mod(x, n);
    assert(x == n * q + x % n);
    assert(t == n * (q + 1) + r) by (nonlinear_arith)
        requires
            t == (q + 1) * n + r,
    ;
    vstd::arithmetic::div_mod::lemma_fundamental_div_mod_converse(t, n, q + 1, r);
    assert(from.secs < t <= from.secs + n) by (nonlinear_arith)
        requires
            from.secs - r == n * q + x % n,
            0 <= x % n < n,
            t == n * (q + 1) + r,
    ;
    assert forall|u: int| from.secs < u < t implies !#[trigger] fires_at(p, u) by {
        if u % n == r {
            vstd::arithmetic::div_mod::lemma_fundamental_div_mod(u, n);
            let k = u / n;
            assert(false) by (nonlinear_arith)
                requires
                    u == n * k + r,
                    from.secs - r == n * q + x % n,
                    0 <= x % n < n,
                    t == n * (q + 1) + r,
                    from.secs < u < t,
                    n > 0,
            ;
        }
    }
    lemma_next_time_is(p, from, t);
}

/// The pattern allows every day of the month.
pub open spec fn every_day(p: CronPattern) -> bool {
    forall|d: int| 1 <= d <= 31 ==> #[trigger] p.days[d]
}

/// The pattern allows every month.
pub open spec fn every_month(p: CronPattern) -> bool {
    forall|m: int| 1 <= m <= 12 ==> #[trigger] p.months[m]
}

/// The pattern allows every weekday.
pub open spec fn every_weekday(p: CronPattern) -> bool {
    forall|w: int| 0 <= w <= 6 ==> #[trigger] p.weekdays[w]
}

/// An expression whose day, month and weekday fields are each `*` (as in "0 30 8 * * *")
/// reads into a pattern that allows every day, month and weekday.
pub proof fn law_star_date_fields(expr: Seq<char>)
    requires
        parse_spec(expr) is Ok,
        ws_fields(expr)[3] == "*"@,
        ws_fields(expr)[4] == "*"@,
        ws_fields(expr)[5] == "*"@,
    ensures
        every_day(parse_spec(expr)->Ok_0),
        every_month(parse_spec(expr)->Ok_0),
        every_weekday(parse_spec(expr)->Ok_0),
{
    let p = parse_spec(expr)->Ok_0;
    assert forall|d: int| 1 <= d <= 31 implies #[trigger] p.days[d] by {
        law_star_allows_all(1, 31, d);
    }
    assert forall|m: int| 1 <= m <= 12 implies #[trigger] p.months[m] by {
        law_star_allows_all(1, 12, m);
    }
    assert forall|w: int| 0 <= w <= 6 implies #[trigger] p.weekdays[w] by {
        law_star_allows_all(0, 7, w);
    }
}

/// The calendar gives every instant a month from 1 to 12, a day from 1 to 31 and a cron
/// weekday from 0 to 6.
proof fn lemma_date_ranges(m: int)
    ensures
        1 <= civil_month_day(m as i64).0 <= 12,
        1 <= civil_month_day(m as i64).1 <= 31,
        0 <= cron_weekday(m) <= 6,
{
    lemma_month_day_ranges(day_number((m as i64) as int));
}

/// The second `u` of its day is `u % 86400`.
proof fn lemma_time_of_day(u: int)
    ensures
        u - day_start(u) == u % 86400,
        0 <= u % 86400 < 86400,
        day_start(u) == (u / 86400) * 86400,
{
    vstd::arithmetic::div_mod::lemma_fundamental_div_mod(u, 86400);
}

/// A schedule that allows every day, month and weekday and, within a day, exactly the
/// times of day `k` with
/// `k % n == r` (for an `n` that divides a day) next fires at the first second `u` after
/// `from` with `u % n == r`. So "0 */5 * * * *" next fires at the next multiple of five
/// minutes, "0 0 0 * * *" at the next midnight, and "0 30 8 * * *" at the next 08:30.
pub proof fn law_every_day_schedule(p: CronPattern, from: UtcTime, n: int, r: int)
    requires
        from.wf(),
        n > 0,
        86400int % n == 0,
        0 <= r < n,
        from.secs + n <= search_end(from),
        every_day(p),
        every_month(p),
        every_weekday(p),
        forall|k: int| 0 <= k < 86400 ==> (#[trigger] time_fires(p, k) <==> k % n == r),
    ensures
        next_time(p, from) == Some(
            UtcTime { secs: (((from.secs - r) / n + 1) * n + r) as i64, nanos: 0 },
        ),
{
    let b = 86400int / n;
    vstd::arithmetic::div_mod::lemma_fundamental_div_mod(86400int, n);
    assert(n * b == 86400);
    assert forall|u: int| #[trigger] fires_at(p, u) <==> u % n == r by {
        lemma_time_of_day(u);
        vstd::arithmetic::div_mod::lemma_mod_mod(u, n, b);
        lemma_date_ranges(day_start(u));
        assert(date_fires(p, day_start(u)));
    }
    law_periodic_next(p, from, n, r);
}

/// A schedule that allows every day and month, exactly Monday (1) among weekdays, and
/// exactly midnight among times of day (as "0 0 0 * * 1" does) next fires at the first Monday midnight after
/// `from`, at most a week later.
pub proof fn law_weekly_schedule(p: CronPattern, from: UtcTime)
    requires
        from.wf(),
        from.secs + 7 * 86400 <= search_end(from),
        every_day(p),
        every_month(p),
        forall|w: int| 0 <= w <= 7 ==> (#[trigger] p.weekdays[w] <==> w == 1),
        forall|k: int| 0 <= k < 86400 ==> (#[trigger] time_fires(p, k) <==> k == 0),
    ensures
        next_time(p, from) == Some(
            UtcTime {
                secs: (((from.secs - 4 * 86400) / (7 * 86400int) + 1) * (7 * 86400) + 4 * 86400) as i64,
                nanos: 0,
            },
        ),
{
    assert forall|u: int| #[trigger] fires_at(p, u) <==> u % (7 * 86400int) == 4 * 86400 by {
        lemma_time_of_day(u);
        let d = u / 86400;
        let k = u % 86400;
        lemma_within_day(d, 0);
        vstd::arithmetic::div_mod::lemma_fundamental_div_mod(d, 7);
        let w = d / 7;
        let e = d % 7;
        assert(u == (7 * 86400) * w + (86400 * e + k)) by (nonlinear_arith)
            requires
                u == d * 86400 + k,
                d == 7 * w + e,
        ;
        vstd::arithmetic::div_mod::lemma_fundamental_div_mod_converse(
            u,
            7 * 86400int,
            w,
            86400 * e + k,
        );
        if e + 3 < 7 {
            vstd::arithmetic::div_mod::lemma_fundamental_div_mod_converse(d + 3, 7, w, e + 3);
        } else {
            vstd::arithmetic::div_mod::lemma_fundamental_div_mod_converse(d + 3, 7, w + 1, e - 4);
        }
        vstd::arithmetic::div_mod::lemma_fundamental_div_mod_converse(d * 86400, 86400, d, 0);
        assert(cron_weekday(day_start(u)) == ((d + 3) % 7 + 1) % 7);
        lemma_date_ranges(day_start(u));
        assert(p.weekdays[7] == false);
        assert(date_fires(p, day_start(u)) <==> cron_weekday(day_start(u)) == 1);
    }
    law_periodic_next(p, from, 7 * 86400int, 4 * 86400int);
}

/// A schedule that allows exactly the first among days of the month, every month and
/// weekday, and exactly midnight among times of day (as "0 0 0 1 * *" does) next fires, where it fires within
/// the searched span, at a midnight after `from` that starts the first of a month, and no
/// midnight between the two starts one.
pub proof fn law_monthly_schedule(p: CronPattern, from: UtcTime)
    requires
        from.wf(),
        forall|d: int| 1 <= d <= 31 ==> (#[trigger] p.days[d] <==> d == 1),
        every_month(p),
        every_weekday(p),
        forall|k: int| 0 <= k < 86400 ==> (#[trigger] time_fires(p, k) <==> k == 0),
    ensures
        next_time(p, from) matches Some(t) ==> {
            &&& from.secs < t.secs
            &&& t.secs % 86400 == 0
            &&& civil_month_day(t.secs).1 == 1
            &&& forall|u: int|
                from.secs < u < t.secs && u % 86400 == 0 ==> (#[trigger] civil_month_day(
                    u as i64,
                )).1 != 1
        },
{
    law_next_is_first(p, from);
    if let Some(t) = next_time(p, from) {
        let x = t.secs as int;
        lemma_time_of_day(x);
        assert(time_fires(p, x - day_start(x)));
        assert(day_start(x) == x);
        lemma_date_ranges(x);
        assert forall|u: int| from.secs < u < t.secs && u % 86400 == 0 implies (#[trigger] civil_month_day(
            u as i64,
        )).1 != 1 by {
            lemma_time_of_day(u);
            lemma_date_ranges(u);
            assert(!fires_at(p, u));
            assert(time_fires(p, u - day_start(u)));
        }
    }
}

} // verus!
