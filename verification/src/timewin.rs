//! The time window calculator: given an instant, the calendar date, local
//! clock reading, start of day and end of day in a fixed UTC+9 offset, and
//! their serialized timestamp forms with the offset spelled out.

use vstd::prelude::*;
use vstd::string::StringExecFns;
use chrono::Datelike;

use crate::text::{spec_pad2, spec_pad4, push_pad2, push_pad4, lemma_pad2_len, lemma_pad4_len};

verus! {

/// Seconds the fixed local offset (+09:00) runs ahead of UTC.
pub const UTC_OFFSET_SECONDS: i64 = 32400;

/// The last local-time second the calendar model covers: 9999-12-31T23:59:59.
pub const MAX_LOCAL_SECONDS: i64 = 253402300799;

/// A calendar date in the fixed local offset.
#[derive(Clone, Copy)]
pub struct Date {
    pub year: u16,
    pub month: u8,
    pub day: u8,
}

/// Mathematical image of a [`Date`].
pub struct DateView {
    pub year: int,
    pub month: int,
    pub day: int,
}

impl View for Date {
    type V = DateView;

    open spec fn view(&self) -> DateView {
        DateView { year: self.year as int, month: self.month as int, day: self.day as int }
    }
}

/// Field bounds of a well-formed date.
pub open spec fn date_wf(d: DateView) -> bool {
    &&& 1970 <= d.year <= 9999
    &&& 1 <= d.month <= 12
    &&& 1 <= d.day <= 31
}

/// A wall-clock reading in the fixed local offset, to whole seconds.
#[derive(Clone, Copy)]
pub struct LocalDateTime {
    pub date: Date,
    pub hour: u8,
    pub minute: u8,
    pub second: u8,
}

/// Mathematical image of a [`LocalDateTime`].
pub struct LocalDateTimeView {
    pub date: DateView,
    pub hour: int,
    pub minute: int,
    pub second: int,
}

impl View for LocalDateTime {
    type V = LocalDateTimeView;

    open spec fn view(&self) -> LocalDateTimeView {
        LocalDateTimeView {
            date: self.date@,
            hour: self.hour as int,
            minute: self.minute as int,
            second: self.second as int,
        }
    }
}

/// Field bounds of a well-formed local time.
pub open spec fn ldt_wf(t: LocalDateTimeView) -> bool {
    &&& date_wf(t.date)
    &&& 0 <= t.hour < 24
    &&& 0 <= t.minute < 60
    &&& 0 <= t.second < 60
}

/// The proleptic Gregorian civil date `(year, month, day)` of a given day
/// number (days since 1970-01-01).
pub uninterp spec fn civil_date_of(day: int) -> (int, int, int);

/// Relies on `chrono::DateTime::<Utc>::from_timestamp` and the `Datelike`
/// accessors `year`, `month` and `day`: the civil date of an in-range second
/// count is a function of its day number `secs / 86400` alone; months run
/// 1..=12 and days of month 1..=31; seconds between 0 and 253402300799 fall in
/// the years 1970..=9999.
#[verifier::external_body]
fn civil_from_unix(secs: i64) -> (r: (u16, u8, u8))
    requires
        0 <= secs <= MAX_LOCAL_SECONDS,
    ensures
        (r.0 as int, r.1 as int, r.2 as int) == civil_date_of(secs as int / 86400),
        1970 <= r.0 <= 9999,
        1 <= r.1 <= 12,
        1 <= r.2 <= 31,
{
    let dt = chrono::DateTime::<chrono::Utc>::from_timestamp(secs, 0).unwrap();
    let date = dt.date_naive();
    (date.year() as u16, date.month() as u8, date.day() as u8)
}

/// Relies on `chrono::Utc::now`: the current instant as whole seconds since
/// the Unix epoch. The value comes from the system clock, so nothing is
/// promised of it.
#[verifier::external_body]
fn unix_now() -> i64 {
    chrono::Utc::now().timestamp()
}

/// Reads the system clock and keeps the instant only when it falls inside the
/// range the calendar model covers.
pub fn current_instant() -> (r: Option<i64>)
    ensures
        r matches Some(t) ==> 0 <= t && t + UTC_OFFSET_SECONDS <= MAX_LOCAL_SECONDS,
{
    let t = unix_now();
    if 0 <= t && t <= MAX_LOCAL_SECONDS - UTC_OFFSET_SECONDS {
        Some(t)
    } else {
        None
    }
}

/// The civil date of the local second count `secs`.
pub open spec fn spec_civil_date(secs: int) -> DateView {
    DateView {
        year: civil_date_of(secs / 86400).0,
        month: civil_date_of(secs / 86400).1,
        day: civil_date_of(secs / 86400).2,
    }
}

/// The start of a local day: the same date at 00:00:00.
pub open spec fn spec_start_of_day(d: DateView) -> LocalDateTimeView {
    LocalDateTimeView { date: d, hour: 0, minute: 0, second: 0 }
}

/// The end of a local day: the same date at 23:59:59.
pub open spec fn spec_end_of_day(d: DateView) -> LocalDateTimeView {
    LocalDateTimeView { date: d, hour: 23, minute: 59, second: 59 }
}

/// The local clock reading at the local second count `secs`: the civil date of
/// its day, and the hour, minute and second within the day.
pub open spec fn spec_now_local(secs: int) -> LocalDateTimeView {
    LocalDateTimeView {
        date: spec_civil_date(secs),
        hour: (secs % 86400) / 3600,
        minute: ((secs % 86400) % 3600) / 60,
        second: (secs % 86400) % 60,
    }
}

/// For every calendar date: the start of the local day reads 00:00:00, its
/// end reads 23:59:59, and both carry that same date.
pub proof fn lemma_window_bounds(d: DateView)
    ensures
        spec_start_of_day(d).hour == 0 && spec_start_of_day(d).minute == 0 && spec_start_of_day(
            d,
        ).second == 0,
        spec_end_of_day(d).hour == 23 && spec_end_of_day(d).minute == 59 && spec_end_of_day(
            d,
        ).second == 59,
        spec_start_of_day(d).date == d && spec_end_of_day(d).date == d,
{
}

/// Today's window around an instant: the local calendar date, the local clock
/// reading, and the bounds of the local day.
pub struct TimeWindow {
    pub date: Date,
    pub now_local: LocalDateTime,
    pub start: LocalDateTime,
    pub end: LocalDateTime,
}

/// Computes the window of "today" for the given instant (seconds since the
/// Unix epoch), in the fixed UTC+9 offset: the local calendar date, the local
/// clock reading, local midnight, and 23:59:59 of the same local date. Pure in
/// its argument; total on the instants the calendar model covers.
pub fn compute_window(now_unix: i64) -> (w: TimeWindow)
    requires
        0 <= now_unix,
        now_unix + UTC_OFFSET_SECONDS <= MAX_LOCAL_SECONDS,
    ensures
        w.date@ == spec_civil_date(now_unix + UTC_OFFSET_SECONDS),
        w.now_local@ == spec_now_local(now_unix + UTC_OFFSET_SECONDS),
        w.start@ == spec_start_of_day(w.date@),
        w.end@ == spec_end_of_day(w.date@),
        date_wf(w.date@),
        ldt_wf(w.now_local@),
        ldt_wf(w.start@),
        ldt_wf(w.end@),
{
    let local_secs = now_unix + UTC_OFFSET_SECONDS;
    let (year, month, day) = civil_from_unix(local_secs);
    let date = Date { year, month, day };
    let sod = local_secs % 86400;
    let hour = (sod / 3600) as u8;
    let minute = ((sod % 3600) / 60) as u8;
    let second = (sod % 60) as u8;
    TimeWindow {
        date,
        now_local: LocalDateTime { date, hour, minute, second },
        start: LocalDateTime { date, hour: 0, minute: 0, second: 0 },
        end: LocalDateTime { date, hour: 23, minute: 59, second: 59 },
    }
}

/// The explicit numeric offset every serialized timestamp carries.
pub open spec fn offset_suffix() -> Seq<char> {
    "+09:00"@
}

/// A date as `YYYY-MM-DD`.
pub open spec fn spec_date_str(d: DateView) -> Seq<char> {
    spec_pad4(d.year) + "-"@ + spec_pad2(d.month) + "-"@ + spec_pad2(d.day)
}

/// A local time as `YYYY-MM-DDTHH:MM:SS+09:00`.
pub open spec fn spec_rfc3339(t: LocalDateTimeView) -> Seq<char> {
    spec_date_str(t.date) + "T"@ + spec_pad2(t.hour) + ":"@ + spec_pad2(t.minute) + ":"@
        + spec_pad2(t.second) + offset_suffix()
}

/// Renders a date as `YYYY-MM-DD`.
pub fn format_date(d: &Date) -> (r: String)
    requires
        date_wf(d@),
    ensures
        r@ == spec_date_str(d@),
{
    let mut out = String::new();
    push_pad4(&mut out, d.year as u32);
    out.append("-");
    push_pad2(&mut out, d.month as u32);
    out.append("-");
    push_pad2(&mut out, d.day as u32);
    out
}

/// Renders a local time as an RFC 3339 timestamp with the explicit `+09:00`
/// offset, to whole seconds.
pub fn format_rfc3339(t: &LocalDateTime) -> (r: String)
    requires
        ldt_wf(t@),
    ensures
        r@ == spec_rfc3339(t@),
{
    let mut out = format_date(&t.date);
    out.append("T");
    push_pad2(&mut out, t.hour as u32);
    out.append(":");
    push_pad2(&mut out, t.minute as u32);
    out.append(":");
    push_pad2(&mut out, t.second as u32);
    out.append("+09:00");
    out
}

/// A serialized timestamp is 25 characters and ends with the six-character
/// numeric offset `+09:00`, so a downstream reader always sees the offset
/// spelled out.
pub proof fn lemma_rfc3339_offset(t: LocalDateTimeView)
    ensures
        spec_rfc3339(t).len() == 25,
        spec_rfc3339(t).subrange(19, 25) == offset_suffix(),
{
    lemma_pad4_len(t.date.year);
    lemma_pad2_len(t.date.month);
    lemma_pad2_len(t.date.day);
    lemma_pad2_len(t.hour);
    lemma_pad2_len(t.minute);
    lemma_pad2_len(t.second);
    reveal_strlit("-");
    reveal_strlit("T");
    reveal_strlit(":");
    reveal_strlit("+09:00");
    assert(spec_rfc3339(t).subrange(19, 25) =~= offset_suffix());
}

} // verus!
