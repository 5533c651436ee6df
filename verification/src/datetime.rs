//! Dates and times of day given as text: reading them with a format,
//! writing them with a format, and counting days and seconds between them.
//! The calendar work is chrono's; a day is held as chrono counts it from
//! 1 January of year 1 (that day is 1), a time of day as its second from
//! midnight and the nanoseconds within it (a leap second has them above
//! 10^9).

use vstd::prelude::*;
use chrono::{Datelike, Timelike};
use crate::number::{abs_int, holds_integer, nearest_representable, number_from_i64, number_to_i64, saturating_i64};
use crate::text::{fails_with, same_text, text};
use crate::value::Value;

verus! {

/// The first day of chrono's calendar (1 January 262144 BCE, year -262143).
pub const FIRST_DAY: i32 = -95_746_129;

/// The last day of chrono's calendar (31 December 262142).
pub const LAST_DAY: i32 = 95_745_399;

/// The last day of the year 9999, the last whose year has four digits.
pub const LAST_FOUR_DIGIT_DAY: i32 = 3_652_059;

/// The largest number of seconds a chrono span holds (`i64::MAX / 1000`).
pub const SPAN_SECONDS: i64 = 9_223_372_036_854_775;

/// The largest number of whole days a chrono span holds.
pub const SPAN_DAYS: i64 = 106_751_991_167;

/// A day that chrono's calendar holds.
pub open spec fn is_day(d: int) -> bool {
    FIRST_DAY <= d <= LAST_DAY
}

/// A time of day that chrono holds: a second of the day, and nanoseconds
/// below 10^9, or below 2 * 10^9 in the last second of a minute.
pub open spec fn is_time(secs: int, nanos: int) -> bool {
    &&& 0 <= secs < 86_400
    &&& 0 <= nanos < 2_000_000_000
    &&& nanos >= 1_000_000_000 ==> secs % 60 == 59
}

/// What `NaiveDate::parse_from_str(text, format)` gives: the day, or the text
/// of its error.
pub uninterp spec fn date_from_text(text: Seq<char>, format: Seq<char>) -> Result<i32, Seq<char>>;

/// What chrono writes for the day with the format, or `None` where it fails.
pub uninterp spec fn date_text(day: i32, format: Seq<char>) -> Option<Seq<char>>;

/// What `NaiveTime::parse_from_str(text, format)` gives: the second and
/// nanoseconds, or the text of its error.
pub uninterp spec fn time_from_text(text: Seq<char>, format: Seq<char>) -> Result<(u32, u32), Seq<char>>;

/// What chrono writes for the time of day with the format, or `None` where it
/// fails.
pub uninterp spec fn time_text(secs: u32, nanos: u32, format: Seq<char>) -> Option<Seq<char>>;

/// The time of day that `NaiveTime + TimeDelta` gives `delta` seconds on.
pub uninterp spec fn time_after(secs: u32, nanos: u32, delta: i64) -> (u32, u32);

/// The text is some day of the calendar written as `%Y-%m-%d`.
pub open spec fn is_date_text(t: Seq<char>) -> bool {
    exists|d: i32| is_day(d as int) && #[trigger] date_text(d, "%Y-%m-%d"@) == Some(t)
}

/// The text is some time of day written as `%H:%M:%S`.
pub open spec fn is_clock_text(t: Seq<char>) -> bool {
    exists|c: (u32, u32)| is_time(c.0 as int, c.1 as int) && #[trigger] time_text(c.0, c.1, "%H:%M:%S"@) == Some(t)
}

/// `chrono::NaiveDate::parse_from_str`, the day it reads counted by
/// `num_days_from_ce`; the error by its text. Every day it reads is in the
/// calendar.
#[verifier::external_body]
fn read_date(text: &str, format: &str) -> (r: Result<i32, String>)
    ensures
        match r {
            Ok(d) => date_from_text(text@, format@) == Ok::<i32, Seq<char>>(d) && is_day(d as int),
            Err(e) => date_from_text(text@, format@) == Err::<i32, Seq<char>>(e@),
        },
{
    match chrono::NaiveDate::parse_from_str(text, format) {
        Ok(d) => Ok(d.num_days_from_ce()),
        Err(e) => Err(e.to_string()),
    }
}

/// `chrono::NaiveDate::format(format).write_to`: `None` for a day outside the
/// calendar or where chrono's formatting fails. It does not fail for a day of
/// the calendar written as `%Y-%m-%d`, whose items a date fills; a day of the
/// years 1 to 9999 so written reads back as that day.
#[verifier::external_body]
fn write_date(day: i32, format: &str) -> (r: Option<String>)
    ensures
        r matches Some(s) ==> date_text(day, format@) == Some(s@),
        r is None ==> date_text(day, format@) is None,
        is_day(day as int) && format@ == "%Y-%m-%d"@ ==> r is Some,
        r is Some && 1 <= day <= LAST_FOUR_DIGIT_DAY && format@ == "%Y-%m-%d"@
            ==> (date_from_text(r->Some_0@, "%Y-%m-%d"@) matches Ok(d) && d == day),
{
    let mut s = String::new();
    match chrono::NaiveDate::from_num_days_from_ce_opt(day) {
        Some(d) => match d.format(format).write_to(&mut s) {
            Ok(()) => Some(s),
            Err(_) => None,
        },
        None => None,
    }
}

/// `chrono::NaiveDate::checked_add_signed` of `TimeDelta::try_days(n)`: the
/// day `n` days on, when the span and that day are in chrono's range.
#[verifier::external_body]
fn add_days(day: i32, n: i64) -> (r: Option<i32>)
    requires
        is_day(day as int),
    ensures
        r == (if -SPAN_DAYS <= n <= SPAN_DAYS && is_day(day + n) {
            Some((day + n) as i32)
        } else {
            None::<i32>
        }),
{
    match (chrono::NaiveDate::from_num_days_from_ce_opt(day), chrono::TimeDelta::try_days(n)) {
        (Some(d), Some(t)) => match d.checked_add_signed(t) {
            Some(e) => Some(e.num_days_from_ce()),
            None => None,
        },
        _ => None,
    }
}

/// `chrono::NaiveTime::parse_from_str`, the time it reads as its second from
/// midnight and nanoseconds; the error by its text.
#[verifier::external_body]
pub(crate) fn read_time(text: &str, format: &str) -> (r: Result<(u32, u32), String>)
    ensures
        match r {
            Ok(t) => time_from_text(text@, format@) == Ok::<(u32, u32), Seq<char>>(t) && is_time(t.0 as int, t.1 as int),
            Err(e) => time_from_text(text@, format@) == Err::<(u32, u32), Seq<char>>(e@),
        },
{
    match chrono::NaiveTime::parse_from_str(text, format) {
        Ok(t) => Ok((t.num_seconds_from_midnight(), t.nanosecond())),
        Err(e) => Err(e.to_string()),
    }
}

/// `chrono::NaiveTime::format(format).write_to`: `None` for a time chrono
/// does not hold or where its formatting fails. It does not fail for a time
/// it holds written as `%H:%M:%S` or `%H:%M`, whose items a time fills.
#[verifier::external_body]
pub(crate) fn write_time(secs: u32, nanos: u32, format: &str) -> (r: Option<String>)
    ensures
        r matches Some(s) ==> time_text(secs, nanos, format@) == Some(s@),
        r is None ==> time_text(secs, nanos, format@) is None,
        is_time(secs as int, nanos as int) && (format@ == "%H:%M:%S"@ || format@ == "%H:%M"@) ==> r is Some,
{
    let mut s = String::new();
    match chrono::NaiveTime::from_num_seconds_from_midnight_opt(secs, nanos) {
        Some(t) => match t.format(format).write_to(&mut s) {
            Ok(()) => Some(s),
            Err(_) => None,
        },
        None => None,
    }
}

/// `NaiveTime + TimeDelta::seconds(delta)`: the time of day wraps around
/// midnight; outside a leap second the nanoseconds stay.
#[verifier::external_body]
fn add_seconds(secs: u32, nanos: u32, delta: i64) -> (r: (u32, u32))
    requires
        is_time(secs as int, nanos as int),
        -SPAN_SECONDS <= delta <= SPAN_SECONDS,
    ensures
        r == time_after(secs, nanos, delta),
        is_time(r.0 as int, r.1 as int),
        nanos < 1_000_000_000 ==> r == (((secs + delta) % 86_400) as u32, nanos),
{
    let t = chrono::NaiveTime::from_num_seconds_from_midnight_opt(secs, nanos).unwrap();
    let u = t + chrono::TimeDelta::seconds(delta);
    (u.num_seconds_from_midnight(), u.nanosecond())
}

/// Today's date on this machine's clock and time zone, as `%Y-%m-%d`. Which
/// day it is is not stated: it is the clock's.
#[verifier::external_body]
fn local_today() -> (s: String)
    ensures
        is_date_text(s@),
{
    chrono::Local::now().naive_local().date().format("%Y-%m-%d").to_string()
}

/// The time of day on this machine's clock and time zone, as `%H:%M:%S`.
/// Which time it is is not stated: it is the clock's.
#[verifier::external_body]
fn local_clock() -> (s: String)
    ensures
        is_clock_text(s@),
{
    chrono::Local::now().naive_local().time().format("%H:%M:%S").to_string()
}

/// The text of argument `i`.
pub open spec fn text_at(args: Seq<Value>, i: int) -> Seq<char> {
    args[i]->String_0@
}

/// Why a call that takes two arguments, the first a text, is refused: the
/// count of arguments, or the first argument not of its kind (the second is
/// a number when `number_second`, else a text).
pub open spec fn pair_error(
    args: Seq<Value>,
    name: Seq<char>,
    first: Seq<char>,
    number_second: bool,
    second: Seq<char>,
) -> Option<Seq<char>> {
    if args.len() != 2 {
        Some(name + "() expects 2 arguments"@)
    } else if !(args[0] is String) {
        Some(name + "(): first argument must be a "@ + first)
    } else if (number_second && !(args[1] is Number)) || (!number_second && !(args[1] is String)) {
        Some(name + "(): second argument must be a "@ + second)
    } else {
        None
    }
}

fn joined(a: &str, b: &str) -> (s: String)
    ensures
        s@ == a@ + b@,
{
    let mut s = text(a);
    s.append(b);
    s
}

fn pair_check(args: &Vec<Value>, name: &str, first: &str, number_second: bool, second: &str) -> (r: Option<String>)
    ensures
        match pair_error(args@, name@, first@, number_second, second@) {
            Some(m) => r matches Some(e) && e@ == m,
            None => r is None,
        },
{
    if args.len() != 2 {
        return Some(joined(name, "() expects 2 arguments"));
    }
    let second_ok = match &args[1] {
        Value::Number(_) => number_second,
        Value::String(_) => !number_second,
        _ => false,
    };
    match &args[0] {
        Value::String(_) => {},
        _ => {
            let mut e = joined(name, "(): first argument must be a ");
            e.append(first);
            return Some(e);
        },
    }
    if !second_ok {
        let mut e = joined(name, "(): second argument must be a ");
        e.append(second);
        return Some(e);
    }
    None
}

/// The text that argument `i` holds.
fn text_arg(args: &Vec<Value>, i: usize) -> (s: String)
    requires
        i < args.len(),
        args@[i as int] is String,
    ensures
        s@ == text_at(args@, i as int),
{
    match &args[i] {
        Value::String(t) => t.clone(),
        _ => String::new(),
    }
}

/// The number that argument `i` holds, as `as i64` turns it.
fn whole_arg(args: &Vec<Value>, i: usize) -> (n: i64)
    requires
        i < args.len(),
        args@[i as int] is Number,
    ensures
        n as int == saturating_i64(args@[i as int]->Number_0),
{
    match &args[i] {
        Value::Number(b) => number_to_i64(*b),
        _ => 0,
    }
}

/// `today()`: today's date on this machine, as `%Y-%m-%d`.
pub fn today(args: Vec<Value>) -> (r: Result<Value, String>)
    ensures
        args.len() != 0 ==> fails_with(r, "today() expects no arguments"@),
        args.len() == 0 ==> (r matches Ok(Value::String(s)) && is_date_text(s@)),
{
    if args.len() != 0 {
        return Err(text("today() expects no arguments"));
    }
    Ok(Value::String(local_today()))
}

/// `timenow()`: the time of day on this machine, as `%H:%M:%S`.
pub fn timenow(args: Vec<Value>) -> (r: Result<Value, String>)
    ensures
        args.len() != 0 ==> fails_with(r, "timenow() expects no arguments"@),
        args.len() == 0 ==> (r matches Ok(Value::String(s)) && is_clock_text(s@)),
{
    if args.len() != 0 {
        return Err(text("timenow() expects no arguments"));
    }
    Ok(Value::String(local_clock()))
}

/// What `datediff` gives.
pub open spec fn days_between(args: Seq<Value>, r: Result<Value, String>) -> bool {
    match pair_error(args, "datediff"@, "date string"@, false, "date string"@) {
        Some(m) => fails_with(r, m),
        None => match date_from_text(text_at(args, 0), "%Y-%m-%d"@) {
            Err(e) => fails_with(r, "datediff(): error parsing date1: "@ + e),
            Ok(d1) => match date_from_text(text_at(args, 1), "%Y-%m-%d"@) {
                Err(e) => fails_with(r, "datediff(): error parsing date2: "@ + e),
                Ok(d2) => r matches Ok(Value::Number(v))
                    && holds_integer(v, nearest_representable(abs_int(d2 - d1)), d2 < d1),
            },
        },
    }
}

/// `datediff(date1, date2)`: the days from the first date to the second,
/// both read as `%Y-%m-%d`.
pub fn datediff(args: Vec<Value>) -> (r: Result<Value, String>)
    ensures
        days_between(args@, r),
{
    match pair_check(&args, "datediff", "date string", false, "date string") {
        Some(e) => return Err(e),
        None => {},
    }
    let a = text_arg(&args, 0);
    let b = text_arg(&args, 1);
    let d1 = match read_date(a.as_str(), "%Y-%m-%d") {
        Ok(d) => d,
        Err(e) => return Err(joined("datediff(): error parsing date1: ", e.as_str())),
    };
    let d2 = match read_date(b.as_str(), "%Y-%m-%d") {
        Ok(d) => d,
        Err(e) => return Err(joined("datediff(): error parsing date2: ", e.as_str())),
    };
    Ok(Value::Number(number_from_i64(d2 as i64 - d1 as i64)))
}

/// The calls of `dateadd` that chrono can serve: where the date reads, the
/// span of days and the day it gives are in chrono's range.
pub open spec fn dateadd_fits(args: Seq<Value>) -> bool {
    pair_error(args, "dateadd"@, "date string"@, true, "number"@) is None ==> (
    date_from_text(text_at(args, 0), "%Y-%m-%d"@) matches Ok(d) ==> {
        let n = saturating_i64(args[1]->Number_0);
        -SPAN_DAYS <= n <= SPAN_DAYS && is_day(d + n)
    })
}

/// What `dateadd` gives.
pub open spec fn dateadd_result(args: Seq<Value>, r: Result<Value, String>) -> bool {
    match pair_error(args, "dateadd"@, "date string"@, true, "number"@) {
        Some(m) => fails_with(r, m),
        None => match date_from_text(text_at(args, 0), "%Y-%m-%d"@) {
            Err(e) => fails_with(r, "dateadd(): error parsing date: "@ + e),
            Ok(d) => {
                let e = d + saturating_i64(args[1]->Number_0);
                &&& r matches Ok(Value::String(s)) && date_text(e as i32, "%Y-%m-%d"@) == Some(s@)
                &&& 1 <= e <= LAST_FOUR_DIGIT_DAY ==> date_from_text(r->Ok_0->String_0@, "%Y-%m-%d"@)
                    == Ok::<i32, Seq<char>>(e as i32)
            },
        },
    }
}

/// `dateadd(date, days)`: the date (`%Y-%m-%d`) that many days on; the count
/// is the number's whole part.
pub fn dateadd(args: Vec<Value>) -> (r: Result<Value, String>)
    requires
        dateadd_fits(args@),
    ensures
        dateadd_result(args@, r),
{
    match pair_check(&args, "dateadd", "date string", true, "number") {
        Some(e) => return Err(e),
        None => {},
    }
    let a = text_arg(&args, 0);
    let n = whole_arg(&args, 1);
    let d = match read_date(a.as_str(), "%Y-%m-%d") {
        Ok(d) => d,
        Err(e) => return Err(joined("dateadd(): error parsing date: ", e.as_str())),
    };
    let later = match add_days(d, n) {
        Some(e) => e,
        None => return Err(String::new()),
    };
    match write_date(later, "%Y-%m-%d") {
        Some(s) => Ok(Value::String(s)),
        None => Err(String::new()),
    }
}

/// `dateadd`, or `None` where the date or the span is beyond chrono's range.
pub fn checked_dateadd(args: Vec<Value>) -> (r: Option<Result<Value, String>>)
    ensures
        r is None <==> !dateadd_fits(args@),
        r matches Some(x) ==> dateadd_result(args@, x),
{
    if pair_check(&args, "dateadd", "date string", true, "number").is_some() {
        return Some(dateadd(args));
    }
    let a = text_arg(&args, 0);
    let n = whole_arg(&args, 1);
    match read_date(a.as_str(), "%Y-%m-%d") {
        Ok(d) => match add_days(d, n) {
            Some(_) => Some(dateadd(args)),
            None => None,
        },
        Err(_) => Some(dateadd(args)),
    }
}

/// The calls of `dateformat` whose format chrono can write the date with.
pub open spec fn dateformat_fits(args: Seq<Value>) -> bool {
    pair_error(args, "dateformat"@, "date string"@, false, "format string"@) is None ==> (
    date_from_text(text_at(args, 0), "%Y-%m-%d"@) matches Ok(d) ==> date_text(d, text_at(args, 1)) is Some)
}

/// What `dateformat` gives.
pub open spec fn dateformat_result(args: Seq<Value>, r: Result<Value, String>) -> bool {
    match pair_error(args, "dateformat"@, "date string"@, false, "format string"@) {
        Some(m) => fails_with(r, m),
        None => match date_from_text(text_at(args, 0), "%Y-%m-%d"@) {
            Err(e) => fails_with(r, "dateformat(): error parsing date: "@ + e),
            Ok(d) => r matches Ok(Value::String(s)) && date_text(d, text_at(args, 1)) == Some(s@),
        },
    }
}

/// `dateformat(date, format)`: the date (`%Y-%m-%d`) written with the format.
pub fn dateformat(args: Vec<Value>) -> (r: Result<Value, String>)
    requires
        dateformat_fits(args@),
    ensures
        dateformat_result(args@, r),
{
    match pair_check(&args, "dateformat", "date string", false, "format string") {
        Some(e) => return Err(e),
        None => {},
    }
    let a = text_arg(&args, 0);
    let f = text_arg(&args, 1);
    let d = match read_date(a.as_str(), "%Y-%m-%d") {
        Ok(d) => d,
        Err(e) => return Err(joined("dateformat(): error parsing date: ", e.as_str())),
    };
    match write_date(d, f.as_str()) {
        Some(s) => Ok(Value::String(s)),
        None => Err(String::new()),
    }
}

/// `dateformat`, or `None` where chrono cannot write the date with the format.
pub fn checked_dateformat(args: Vec<Value>) -> (r: Option<Result<Value, String>>)
    ensures
        r is None <==> !dateformat_fits(args@),
        r matches Some(x) ==> dateformat_result(args@, x),
{
    if pair_check(&args, "dateformat", "date string", false, "format string").is_some() {
        return Some(dateformat(args));
    }
    let a = text_arg(&args, 0);
    let f = text_arg(&args, 1);
    match read_date(a.as_str(), "%Y-%m-%d") {
        Ok(d) => match write_date(d, f.as_str()) {
            Some(_) => Some(dateformat(args)),
            None => None,
        },
        Err(_) => Some(dateformat(args)),
    }
}

/// `dateparse(text, format)`: the date read with the format, written as
/// `%Y-%m-%d`.
pub fn dateparse(args: Vec<Value>) -> (r: Result<Value, String>)
    ensures
        match pair_error(args@, "dateparse"@, "date string"@, false, "format string"@) {
            Some(m) => fails_with(r, m),
            None => match date_from_text(text_at(args@, 0), text_at(args@, 1)) {
                Err(e) => fails_with(r, "dateparse(): error parsing date: "@ + e),
                Ok(d) => r matches Ok(Value::String(s)) && date_text(d, "%Y-%m-%d"@) == Some(s@),
            },
        },
{
    match pair_check(&args, "dateparse", "date string", false, "format string") {
        Some(e) => return Err(e),
        None => {},
    }
    let a = text_arg(&args, 0);
    let f = text_arg(&args, 1);
    let d = match read_date(a.as_str(), f.as_str()) {
        Ok(d) => d,
        Err(e) => return Err(joined("dateparse(): error parsing date: ", e.as_str())),
    };
    match write_date(d, "%Y-%m-%d") {
        Some(s) => Ok(Value::String(s)),
        None => Err(String::new()),
    }
}

/// `timediff(time1, time2)`: the seconds from the first time of day to the
/// second, both read as `%H:%M:%S`.
pub fn timediff(args: Vec<Value>) -> (r: Result<Value, String>)
    ensures
        match pair_error(args@, "timediff"@, "time string"@, false, "time string"@) {
            Some(m) => fails_with(r, m),
            None => match time_from_text(text_at(args@, 0), "%H:%M:%S"@) {
                Err(e) => fails_with(r, "timediff(): error parsing time1: "@ + e),
                Ok(t1) => match time_from_text(text_at(args@, 1), "%H:%M:%S"@) {
                    Err(e) => fails_with(r, "timediff(): error parsing time2: "@ + e),
                    Ok(t2) => r matches Ok(Value::Number(v))
                        && holds_integer(v, nearest_representable(abs_int(t2.0 - t1.0)), t2.0 < t1.0),
                },
            },
        },
{
    match pair_check(&args, "timediff", "time string", false, "time string") {
        Some(e) => return Err(e),
        None => {},
    }
    let a = text_arg(&args, 0);
    let b = text_arg(&args, 1);
    let t1 = match read_time(a.as_str(), "%H:%M:%S") {
        Ok(t) => t,
        Err(e) => return Err(joined("timediff(): error parsing time1: ", e.as_str())),
    };
    let t2 = match read_time(b.as_str(), "%H:%M:%S") {
        Ok(t) => t,
        Err(e) => return Err(joined("timediff(): error parsing time2: ", e.as_str())),
    };
    Ok(Value::Number(number_from_i64(t2.0 as i64 - t1.0 as i64)))
}

/// The seconds in a unit of `timeadd`.
pub open spec fn unit_seconds(u: Seq<char>) -> Option<int> {
    if u == "seconds"@ {
        Some(1)
    } else if u == "minutes"@ {
        Some(60)
    } else if u == "hours"@ {
        Some(3600)
    } else {
        None
    }
}

fn unit_of(u: &String) -> (r: Option<i64>)
    ensures
        match unit_seconds(u@) {
            Some(k) => r == Some(k as i64),
            None => r is None,
        },
{
    if same_text(u, "seconds") {
        Some(1)
    } else if same_text(u, "minutes") {
        Some(60)
    } else if same_text(u, "hours") {
        Some(3600)
    } else {
        None
    }
}

/// Why `timeadd` refuses a call before reading the time.
pub open spec fn timeadd_error(args: Seq<Value>) -> Option<Seq<char>> {
    if args.len() != 3 {
        Some("timeadd() expects 3 arguments"@)
    } else if !(args[0] is String) {
        Some("timeadd(): first argument must be a time string"@)
    } else if !(args[1] is String) {
        Some("timeadd(): second argument must be a unit string"@)
    } else if !(args[2] is Number) {
        Some("timeadd(): third argument must be a number"@)
    } else {
        None
    }
}

/// The calls of `timeadd` that chrono can serve: where the time reads and the
/// unit is known, the span is in chrono's range.
pub open spec fn timeadd_fits(args: Seq<Value>) -> bool {
    timeadd_error(args) is None ==> (
    time_from_text(text_at(args, 0), "%H:%M:%S"@) is Ok ==> (
    unit_seconds(text_at(args, 1)) matches Some(k) ==> {
        let delta = saturating_i64(args[2]->Number_0) * k;
        -SPAN_SECONDS <= delta <= SPAN_SECONDS
    }))
}

/// What `timeadd` gives.
pub open spec fn timeadd_result(args: Seq<Value>, r: Result<Value, String>) -> bool {
    match timeadd_error(args) {
        Some(m) => fails_with(r, m),
        None => match time_from_text(text_at(args, 0), "%H:%M:%S"@) {
            Err(e) => fails_with(r, "timeadd(): error parsing time: "@ + e),
            Ok(t) => match unit_seconds(text_at(args, 1)) {
                None => fails_with(r, "timeadd(): unsupported unit. Use 'seconds', 'minutes', or 'hours'."@),
                Some(k) => {
                    let u = time_after(t.0, t.1, (saturating_i64(args[2]->Number_0) * k) as i64);
                    r matches Ok(Value::String(s)) && time_text(u.0, u.1, "%H:%M:%S"@) == Some(s@)
                },
            },
        },
    }
}

fn timeadd_check(args: &Vec<Value>) -> (r: Option<String>)
    ensures
        match timeadd_error(args@) {
            Some(m) => r matches Some(e) && e@ == m,
            None => r is None,
        },
{
    if args.len() != 3 {
        return Some(text("timeadd() expects 3 arguments"));
    }
    match &args[0] {
        Value::String(_) => {},
        _ => return Some(text("timeadd(): first argument must be a time string")),
    }
    match &args[1] {
        Value::String(_) => {},
        _ => return Some(text("timeadd(): second argument must be a unit string")),
    }
    match &args[2] {
        Value::Number(_) => None,
        _ => Some(text("timeadd(): third argument must be a number")),
    }
}

/// `timeadd(time, unit, count)`: the time of day (`%H:%M:%S`) that many
/// seconds, minutes or hours on, round the clock; the count is the number's
/// whole part.
pub fn timeadd(args: Vec<Value>) -> (r: Result<Value, String>)
    requires
        timeadd_fits(args@),
    ensures
        timeadd_result(args@, r),
{
    match timeadd_check(&args) {
        Some(e) => return Err(e),
        None => {},
    }
    let a = text_arg(&args, 0);
    let u = text_arg(&args, 1);
    let n = whole_arg(&args, 2);
    let t = match read_time(a.as_str(), "%H:%M:%S") {
        Ok(t) => t,
        Err(e) => return Err(joined("timeadd(): error parsing time: ", e.as_str())),
    };
    let k = match unit_of(&u) {
        Some(k) => k,
        None => return Err(text("timeadd(): unsupported unit. Use 'seconds', 'minutes', or 'hours'.")),
    };
    let later = add_seconds(t.0, t.1, n * k);
    match write_time(later.0, later.1, "%H:%M:%S") {
        Some(s) => Ok(Value::String(s)),
        None => Err(String::new()),
    }
}

/// `timeadd`, or `None` where the span is beyond chrono's range.
pub fn checked_timeadd(args: Vec<Value>) -> (r: Option<Result<Value, String>>)
    ensures
        r is None <==> !timeadd_fits(args@),
        r matches Some(x) ==> timeadd_result(args@, x),
{
    if timeadd_check(&args).is_some() {
        return Some(timeadd(args));
    }
    let a = text_arg(&args, 0);
    let u = text_arg(&args, 1);
    let n = whole_arg(&args, 2);
    if read_time(a.as_str(), "%H:%M:%S").is_err() {
        return Some(timeadd(args));
    }
    match unit_of(&u) {
        Some(k) => {
            assert(-0x8000_0000_0000_0000 * 3600 <= n * k <= 0x8000_0000_0000_0000 * 3600) by (nonlinear_arith)
                requires
                    1 <= k <= 3600,
                    -0x8000_0000_0000_0000 <= n < 0x8000_0000_0000_0000,
            ;
            let delta = n as i128 * k as i128;
            if -(SPAN_SECONDS as i128) <= delta && delta <= SPAN_SECONDS as i128 {
                Some(timeadd(args))
            } else {
                None
            }
        },
        None => Some(timeadd(args)),
    }
}

/// The calls of `timeformat` whose format chrono can write the time with.
pub open spec fn timeformat_fits(args: Seq<Value>) -> bool {
    pair_error(args, "timeformat"@, "time string"@, false, "format string"@) is None ==> (
    time_from_text(text_at(args, 0), "%H:%M:%S"@) matches Ok(t) ==> time_text(t.0, t.1, text_at(args, 1)) is Some)
}

/// What `timeformat` gives.
pub open spec fn timeformat_result(args: Seq<Value>, r: Result<Value, String>) -> bool {
    match pair_error(args, "timeformat"@, "time string"@, false, "format string"@) {
        Some(m) => fails_with(r, m),
        None => match time_from_text(text_at(args, 0), "%H:%M:%S"@) {
            Err(e) => fails_with(r, "timeformat(): error parsing time: "@ + e),
            Ok(t) => r matches Ok(Value::String(s)) && time_text(t.0, t.1, text_at(args, 1)) == Some(s@),
        },
    }
}

/// `timeformat(time, format)`: the time of day (`%H:%M:%S`) written with the
/// format.
pub fn timeformat(args: Vec<Value>) -> (r: Result<Value, String>)
    requires
        timeformat_fits(args@),
    ensures
        timeformat_result(args@, r),
{
    match pair_check(&args, "timeformat", "time string", false, "format string") {
        Some(e) => return Err(e),
        None => {},
    }
    let a = text_arg(&args, 0);
    let f = text_arg(&args, 1);
    let t = match read_time(a.as_str(), "%H:%M:%S") {
        Ok(t) => t,
        Err(e) => return Err(joined("timeformat(): error parsing time: ", e.as_str())),
    };
    match write_time(t.0, t.1, f.as_str()) {
        Some(s) => Ok(Value::String(s)),
        None => Err(String::new()),
    }
}

/// `timeformat`, or `None` where chrono cannot write the time with the format.
pub fn checked_timeformat(args: Vec<Value>) -> (r: Option<Result<Value, String>>)
    ensures
        r is None <==> !timeformat_fits(args@),
        r matches Some(x) ==> timeformat_result(args@, x),
{
    if pair_check(&args, "timeformat", "time string", false, "format string").is_some() {
        return Some(timeformat(args));
    }
    let a = text_arg(&args, 0);
    let f = text_arg(&args, 1);
    match read_time(a.as_str(), "%H:%M:%S") {
        Ok(t) => match write_time(t.0, t.1, f.as_str()) {
            Some(_) => Some(timeformat(args)),
            None => None,
        },
        Err(_) => Some(timeformat(args)),
    }
}

/// `timeparse(text, format)`: the time of day read with the format, written as
/// `%H:%M:%S`.
pub fn timeparse(args: Vec<Value>) -> (r: Result<Value, String>)
    ensures
        match pair_error(args@, "timeparse"@, "time string"@, false, "format string"@) {
            Some(m) => fails_with(r, m),
            None => match time_from_text(text_at(args@, 0), text_at(args@, 1)) {
                Err(e) => fails_with(r, "timeparse(): error parsing time: "@ + e),
                Ok(t) => r matches Ok(Value::String(s)) && time_text(t.0, t.1, "%H:%M:%S"@) == Some(s@),
            },
        },
{
    match pair_check(&args, "timeparse", "time string", false, "format string") {
        Some(e) => return Err(e),
        None => {},
    }
    let a = text_arg(&args, 0);
    let f = text_arg(&args, 1);
    let t = match read_time(a.as_str(), f.as_str()) {
        Ok(t) => t,
        Err(e) => return Err(joined("timeparse(): error parsing time: ", e.as_str())),
    };
    match write_time(t.0, t.1, "%H:%M:%S") {
        Some(s) => Ok(Value::String(s)),
        None => Err(String::new()),
    }
}

} // verus!
