//! Six-field cron expressions ("sec min hour day month weekday") and the next instant at
//! which each of them fires.
//!
//! An instant fires when its second, minute and hour, its day of the month, its month and
//! its weekday are each allowed by their field. Weekdays run from 0 (Sunday) to 6, and 7
//! is Sunday again. The day-of-month and weekday fields must both allow the date.

use crate::cron::field::{field_mask, field_mask_of, field_valid};
use crate::text::{joined, owned, split_fields, strings_view, ws_fields};
use crate::time::{
    civil_month_day, day_number, lemma_month_day_ranges, day_start, day_start_of, month_day_of, weekday_from_monday,
    weekday_of, UtcTime, MAX_TIMESTAMP, MIN_TIMESTAMP, SECS_PER_DAY,
};
use vstd::prelude::*;

verus! {

/// Seconds in 400 Gregorian years (146097 days, a whole number of weeks): the span after
/// which dates and weekdays repeat, and so the span in which the next instant is sought.
pub const SEARCH_SPAN: i64 = 146097 * SECS_PER_DAY;

/// Why a cron expression has no next instant.
#[derive(Clone, Debug)]
pub enum CronError {
    /// The expression does not have six white-space separated fields.
    InvalidFormat,
    /// The expression has six fields but one of them is malformed or out of range, so it
    /// is not supported.
    InvalidField { expression: String },
    /// The expression fires at no instant in the searched span.
    NoMatch { expression: String },
}

/// The content of a `CronError`.
pub enum CronFailure {
    InvalidFormat,
    InvalidField(Seq<char>),
    NoMatch(Seq<char>),
}

impl View for CronError {
    type V = CronFailure;

    open spec fn view(&self) -> CronFailure {
        match self {
            CronError::InvalidFormat => CronFailure::InvalidFormat,
            CronError::InvalidField { expression } => CronFailure::InvalidField(expression@),
            CronError::NoMatch { expression } => CronFailure::NoMatch(expression@),
        }
    }
}

/// The message of a cron failure.
pub open spec fn failure_message(f: CronFailure) -> Seq<char> {
    match f {
        CronFailure::InvalidFormat => "Invalid cron expression format. Expected 6 parts: sec min hour day month weekday"@,
        CronFailure::InvalidField(e) => "Cron expression not supported yet: "@ + e
            + ". Each field is a comma-separated list of '*', 'n' or 'a-b', each optionally followed by '/step'"@,
        CronFailure::NoMatch(e) => "Cron expression never fires: "@ + e,
    }
}

impl CronError {
    /// The error's message.
    pub fn message(&self) -> (r: String)
        ensures
            r@ == failure_message(self@),
    {
        match self {
            CronError::InvalidFormat => owned(
                "Invalid cron expression format. Expected 6 parts: sec min hour day month weekday",
            ),
            CronError::InvalidField { expression } => {
                let mut r = joined("Cron expression not supported yet: ", expression.as_str());
                r.append(
                    ". Each field is a comma-separated list of '*', 'n' or 'a-b', each optionally followed by '/step'",
                );
                r
            },
            CronError::NoMatch { expression } => joined(
                "Cron expression never fires: ",
                expression.as_str(),
            ),
        }
    }
}

/// The content of a result whose error is a `CronError`.
pub open spec fn cron_result<T>(r: Result<T, CronError>) -> Result<T, CronFailure> {
    match r {
        Ok(v) => Ok(v),
        Err(e) => Err(e@),
    }
}

/// A parsed expression: for each field, which of its values it allows, indexed by value
/// (seconds and minutes 0 to 59, hours 0 to 23, days 1 to 31, months 1 to 12, weekdays 0
/// to 7).
pub struct CronPattern {
    pub seconds: Seq<bool>,
    pub minutes: Seq<bool>,
    pub hours: Seq<bool>,
    pub days: Seq<bool>,
    pub months: Seq<bool>,
    pub weekdays: Seq<bool>,
}

impl CronPattern {
    /// Each mask covers its field's values.
    pub open spec fn wf(self) -> bool {
        &&& self.seconds.len() == 60
        &&& self.minutes.len() == 60
        &&& self.hours.len() == 24
        &&& self.days.len() == 32
        &&& self.months.len() == 13
        &&& self.weekdays.len() == 8
    }
}

/// A parsed cron expression: the masks of the values its fields allow.
#[derive(Clone, Debug)]
pub struct CronSchedule {
    pub seconds: Vec<bool>,
    pub minutes: Vec<bool>,
    pub hours: Vec<bool>,
    pub days: Vec<bool>,
    pub months: Vec<bool>,
    pub weekdays: Vec<bool>,
}

impl View for CronSchedule {
    type V = CronPattern;

    open spec fn view(&self) -> CronPattern {
        CronPattern {
            seconds: self.seconds@,
            minutes: self.minutes@,
            hours: self.hours@,
            days: self.days@,
            months: self.months@,
            weekdays: self.weekdays@,
        }
    }
}

/// Each of six fields is well formed for its values.
pub open spec fn fields_valid(f: Seq<Seq<char>>) -> bool {
    &&& field_valid(f[0], 0, 59)
    &&& field_valid(f[1], 0, 59)
    &&& field_valid(f[2], 0, 23)
    &&& field_valid(f[3], 1, 31)
    &&& field_valid(f[4], 1, 12)
    &&& field_valid(f[5], 0, 7)
}

/// The pattern that six fields denote.
pub open spec fn pattern_of(f: Seq<Seq<char>>) -> CronPattern {
    CronPattern {
        seconds: field_mask(f[0], 0, 59),
        minutes: field_mask(f[1], 0, 59),
        hours: field_mask(f[2], 0, 23),
        days: field_mask(f[3], 1, 31),
        months: field_mask(f[4], 1, 12),
        weekdays: field_mask(f[5], 0, 7),
    }
}

/// What reading an expression gives: a format error unless it has six fields, an error
/// naming the expression where a field is malformed, and otherwise its pattern.
pub open spec fn parse_spec(expr: Seq<char>) -> Result<CronPattern, CronFailure> {
    let f = ws_fields(expr);
    if f.len() != 6 {
        Err(CronFailure::InvalidFormat)
    } else if !fields_valid(f) {
        Err(CronFailure::InvalidField(expr))
    } else {
        Ok(pattern_of(f))
    }
}

/// The content of a parse result.
pub open spec fn parsed(r: Result<CronSchedule, CronError>) -> Result<CronPattern, CronFailure> {
    match r {
        Ok(s) => Ok(s@),
        Err(e) => Err(e@),
    }
}

/// The pattern allows the second, minute and hour of the time of day `k` (seconds after
/// midnight).
pub open spec fn time_fires(p: CronPattern, k: int) -> bool {
    p.seconds[k % 60] && p.minutes[(k / 60) % 60] && p.hours[k / 3600]
}

/// The cron weekday of the day that holds `secs`: 0 for Sunday, 1 for Monday, up to 6.
pub open spec fn cron_weekday(secs: int) -> int {
    (weekday_from_monday(secs) + 1) % 7
}

/// The weekday mask allows cron weekday `k`, where 7 stands for Sunday too.
pub open spec fn weekday_fires(w: Seq<bool>, k: int) -> bool {
    w[k] || (k == 0 && w[7])
}

/// The pattern allows the date that starts at `midnight`: its day of the month, its month
/// and its weekday.
pub open spec fn date_fires(p: CronPattern, midnight: int) -> bool {
    let md = civil_month_day(midnight as i64);
    &&& p.days[md.1 as int]
    &&& p.months[md.0 as int]
    &&& weekday_fires(p.weekdays, cron_weekday(midnight))
}

/// The pattern fires at the whole second `t`.
pub open spec fn fires_at(p: CronPattern, t: int) -> bool {
    date_fires(p, day_start(t)) && time_fires(p, t - day_start(t))
}

/// The last second searched from `from`: `SEARCH_SPAN` later, or the end of the calendar.
pub open spec fn search_end(from: UtcTime) -> int {
    if from.secs <= MAX_TIMESTAMP - SEARCH_SPAN {
        from.secs + SEARCH_SPAN
    } else {
        MAX_TIMESTAMP as int
    }
}

/// `t` is the first second after `from`, within the searched span, at which the pattern
/// fires.
pub open spec fn first_firing(p: CronPattern, from: UtcTime, t: int) -> bool {
    &&& from.secs < t <= search_end(from)
    &&& fires_at(p, t)
    &&& forall|u: int| from.secs < u < t ==> !#[trigger] fires_at(p, u)
}

/// The next instant at which the pattern fires after `from`: the earliest whole second
/// strictly after it, within the searched span; `None` where it fires at none.
pub open spec fn next_time(p: CronPattern, from: UtcTime) -> Option<UtcTime> {
    if exists|t: int| first_firing(p, from, t) {
        Some(UtcTime { secs: (choose|t: int| first_firing(p, from, t)) as i64, nanos: 0 })
    } else {
        None
    }
}

/// What computing the next execution of `expr` from `from` gives.
#[verifier::opaque]
pub open spec fn next_execution_spec(expr: Seq<char>, from: UtcTime) -> Result<UtcTime, CronFailure> {
    match parse_spec(expr) {
        Err(e) => Err(e),
        Ok(p) => match next_time(p, from) {
            Some(t) => Ok(t),
            None => Err(CronFailure::NoMatch(expr)),
        },
    }
}

/// A second of a day, counted from its midnight, belongs to that day.
pub proof fn lemma_within_day(q: int, k: int)
    requires
        0 <= k < 86400,
    ensures
        day_start(q * 86400 + k) == q * 86400,
{
    vstd::arithmetic::div_mod::lemma_fundamental_div_mod_converse(q * 86400 + k, 86400, q, k);
}

/// The first firing after `from`, where there is one, is the next instant.
pub proof fn lemma_next_time_is(p: CronPattern, from: UtcTime, t: int)
    requires
        from.wf(),
        first_firing(p, from, t),
    ensures
        next_time(p, from) == Some(UtcTime { secs: t as i64, nanos: 0 }),
{
    let c = choose|t: int| first_firing(p, from, t);
    assert(first_firing(p, from, c));
    if c < t {
        assert(!fires_at(p, c));
    }
    if c > t {
        assert(!fires_at(p, t));
    }
}

/// Where the pattern fires at no second of the searched span, there is no next instant.
proof fn lemma_no_next_time(p: CronPattern, from: UtcTime)
    requires
        forall|u: int| from.secs < u <= search_end(from) ==> !#[trigger] fires_at(p, u),
    ensures
        next_time(p, from) is None,
{
    assert(!exists|t: int| first_firing(p, from, t));
}

/// The next instant after `from` is a whole second after it, within the searched span and
/// the calendar, at which the pattern fires, and the pattern fires at no second between
/// the two.
pub proof fn law_next_is_first(p: CronPattern, from: UtcTime)
    requires
        from.wf(),
    ensures
        next_time(p, from) matches Some(t) ==> {
            &&& first_firing(p, from, t.secs as int)
            &&& t.nanos == 0
            &&& t.wf()
        },
{
    if exists|t: int| first_firing(p, from, t) {
        let c = choose|t: int| first_firing(p, from, t);
        assert(first_firing(p, from, c));
        assert(MIN_TIMESTAMP <= c <= MAX_TIMESTAMP);
    }
}

/// Simple cron parser.
pub struct CronParser;

impl CronParser {
    /// Reads a cron expression of six white-space separated fields ("sec min hour day
    /// month weekday") into the masks of the values its fields allow.
    pub fn parse(cron_expr: &str) -> (r: Result<CronSchedule, CronError>)
        ensures
            parsed(r) == parse_spec(cron_expr@),
            r matches Ok(s) ==> s@.wf(),
    {
        let fields = split_fields(cron_expr);
        let ghost fv = strings_view(fields@);
        if fields.len() != 6 {
            return Err(CronError::InvalidFormat);
        }
        assert(forall|i: int| 0 <= i < 6 ==> fv[i] == (#[trigger] fields@[i])@);
        let seconds = match field_mask_of(fields[0].as_str(), 0, 59) {
            Some(m) => m,
            None => return Err(CronError::InvalidField { expression: owned(cron_expr) }),
        };
        let minutes = match field_mask_of(fields[1].as_str(), 0, 59) {
            Some(m) => m,
            None => return Err(CronError::InvalidField { expression: owned(cron_expr) }),
        };
        let hours = match field_mask_of(fields[2].as_str(), 0, 23) {
            Some(m) => m,
            None => return Err(CronError::InvalidField { expression: owned(cron_expr) }),
        };
        let days = match field_mask_of(fields[3].as_str(), 1, 31) {
            Some(m) => m,
            None => return Err(CronError::InvalidField { expression: owned(cron_expr) }),
        };
        let months = match field_mask_of(fields[4].as_str(), 1, 12) {
            Some(m) => m,
            None => return Err(CronError::InvalidField { expression: owned(cron_expr) }),
        };
        let weekdays = match field_mask_of(fields[5].as_str(), 0, 7) {
            Some(m) => m,
            None => return Err(CronError::InvalidField { expression: owned(cron_expr) }),
        };
        let s = CronSchedule { seconds, minutes, hours, days, months, weekdays };
        assert(s@ == pattern_of(fv));
        Ok(s)
    }

    /// Parses a cron expression and computes the next instant after `from` at which it
    /// fires. Format: "sec min hour day month weekday"; for example "0 */5 * * * *" fires
    /// every five minutes.
    pub fn next_execution(cron_expr: &str, from: UtcTime) -> (r: Result<UtcTime, CronError>)
        requires
            from.wf(),
        ensures
            cron_result(r) == next_execution_spec(cron_expr@, from),
            r matches Ok(t) ==> t.wf(),
    {
        proof {
            reveal(next_execution_spec);
        }
        let s = match Self::parse(cron_expr) {
            Ok(s) => s,
            Err(e) => return Err(e),
        };
        proof {
            law_next_is_first(s@, from);
        }
        match s.next_after(from) {
            Some(t) => Ok(t),
            None => Err(CronError::NoMatch { expression: owned(cron_expr) }),
        }
    }
}

impl CronSchedule {
    /// Whether the schedule allows the time of day `k`.
    fn time_fires_at(&self, k: i64) -> (r: bool)
        requires
            self@.wf(),
            0 <= k < 86400,
        ensures
            r == time_fires(self@, k as int),
    {
        let ku = k as usize;
        assert(ku / 3600 < 24) by (nonlinear_arith)
            requires
                ku < 86400,
        ;
        self.seconds[ku % 60] && self.minutes[(ku / 60) % 60] && self.hours[ku / 3600]
    }

    /// Whether the schedule allows the date that starts at `midnight`.
    fn date_fires_on(&self, midnight: i64) -> (r: bool)
        requires
            self@.wf(),
            MIN_TIMESTAMP <= midnight <= MAX_TIMESTAMP,
        ensures
            r == date_fires(self@, midnight as int),
    {
        let (month, day) = month_day_of(midnight);
        proof {
            lemma_month_day_ranges(day_number(midnight as int));
        }
        let w = weekday_of(midnight);
        let cw = ((w + 1) % 7) as usize;
        self.days[day as usize] && self.months[month as usize] && (self.weekdays[cw] || (cw == 0
            && self.weekdays[7]))
    }

    /// The next instant after `from` at which this schedule fires: the earliest whole
    /// second strictly after `from` whose fields it allows, within the searched span.
    pub fn next_after(&self, from: UtcTime) -> (r: Option<UtcTime>)
        requires
            self@.wf(),
            from.wf(),
        ensures
            r == next_time(self@, from),
    {
        let end: i64 = if from.secs <= MAX_TIMESTAMP - SEARCH_SPAN {
            from.secs + SEARCH_SPAN
        } else {
            MAX_TIMESTAMP
        };
        if from.secs >= end {
            proof {
                lemma_no_next_time(self@, from);
            }
            return None;
        }
        let first = from.secs + 1;
        let mut day = day_start_of(first);
        let ghost mut dn: int = day_number(first as int);
        let mut lb: i64 = first - day;
        assert(MIN_TIMESTAMP == -96465292 * 86400);
        while day <= end
            invariant
                self@.wf(),
                from.wf(),
                end == search_end(from),
                from.secs < end <= MAX_TIMESTAMP,
                day == dn * 86400,
                MIN_TIMESTAMP <= day,
                0 <= lb < 86400,
                day + lb > from.secs,
                forall|u: int| from.secs < u < day + lb ==> !#[trigger] fires_at(self@, u),
            decreases end + SECS_PER_DAY - day,
        {
            if self.date_fires_on(day) {
                let mut k: i64 = lb;
                while k < 86400
                    invariant
                        self@.wf(),
                        from.wf(),
                        end == search_end(from),
                        from.secs < end <= MAX_TIMESTAMP,
                        day == dn * 86400,
                        MIN_TIMESTAMP <= day <= end,
                        0 <= lb <= k <= 86400,
                        day + lb > from.secs,
                        date_fires(self@, day as int),
                        forall|u: int| from.secs < u < day + k ==> !#[trigger] fires_at(self@, u),
                    decreases 86400 - k,
                {
                    let t = day + k;
                    if t > end {
                        proof {
                            lemma_no_next_time(self@, from);
                        }
                        return None;
                    }
                    proof {
                        lemma_within_day(dn, k as int);
                    }
                    if self.time_fires_at(k) {
                        proof {
                            assert(fires_at(self@, t as int));
                            assert(first_firing(self@, from, t as int));
                            lemma_next_time_is(self@, from, t as int);
                        }
                        return Some(UtcTime { secs: t, nanos: 0 });
                    }
                    assert(!fires_at(self@, t as int));
                    k = k + 1;
                }
            } else {
                proof {
                    assert forall|u: int| from.secs < u < day + 86400 implies !fires_at(self@, u) by {
                        if u >= day + lb {
                            lemma_within_day(dn, u - day);
                        }
                    }
                }
            }
            day = day + SECS_PER_DAY;
            proof {
                dn = dn + 1;
            }
            lb = 0;
        }
        proof {
            lemma_no_next_time(self@, from);
        }
        None
    }
}

} // verus!
