use chrono::{Datelike, NaiveDate, TimeDelta};
use easybite::create::createform;
use easybite::datetime::{
    checked_dateadd, checked_dateformat, checked_timeadd, checked_timeformat, dateadd, datediff, dateformat,
    dateparse, timeadd, timediff, timeformat, timenow, timeparse, today, FIRST_DAY, LAST_DAY, LAST_FOUR_DIGIT_DAY, SPAN_DAYS,
    SPAN_SECONDS,
};
use easybite::pickers::{
    checked_createdatetimepicker, checked_createtimerpicker, checked_get_timerpicker_time,
    checked_set_timerpicker_time, createdatetimepicker, createtimerpicker, get_datetime, get_timerpicker_time,
    set_datetime, set_timerpicker_time,
};
use easybite::ui::Ui;
use easybite::value::Value;

fn num(x: f64) -> Value {
    Value::Number(x.to_bits())
}

fn s(t: &str) -> Value {
    Value::String(t.to_string())
}

fn err(r: Result<Value, String>) -> String {
    match r {
        Err(e) => e,
        Ok(v) => panic!("expected an error, got {:?}", v),
    }
}

fn number(r: Result<Value, String>) -> f64 {
    match r {
        Ok(Value::Number(b)) => f64::from_bits(b),
        other => panic!("expected a number, got {:?}", other),
    }
}

fn text_of(r: Result<Value, String>) -> String {
    match r {
        Ok(Value::String(t)) => t,
        other => panic!("expected a text, got {:?}", other),
    }
}

fn form(ui: &mut Ui) -> Value {
    createform(ui, vec![s("F"), num(300.0), num(200.0)]).unwrap()
}

fn dup_form(f: &Value) -> Value {
    match f {
        Value::FormObject(t) => Value::FormObject(t.clone()),
        other => panic!("expected a form, got {:?}", other),
    }
}

#[test]
fn calendar_bounds_are_chronos() {
    assert_eq!(NaiveDate::MIN.num_days_from_ce(), FIRST_DAY);
    assert_eq!(NaiveDate::MAX.num_days_from_ce(), LAST_DAY);
    assert_eq!(NaiveDate::from_ymd_opt(9999, 12, 31).unwrap().num_days_from_ce(), LAST_FOUR_DIGIT_DAY);
    assert_eq!(NaiveDate::from_ymd_opt(1, 1, 1).unwrap().num_days_from_ce(), 1);
    assert!(TimeDelta::try_days(SPAN_DAYS).is_some());
    assert!(TimeDelta::try_days(SPAN_DAYS + 1).is_none());
    assert!(TimeDelta::try_seconds(SPAN_SECONDS).is_some());
    assert!(TimeDelta::try_seconds(SPAN_SECONDS + 1).is_none());
}

#[test]
fn today_and_now_have_their_shapes() {
    let d = text_of(today(vec![]));
    assert_eq!(d.len(), 10);
    assert!(NaiveDate::parse_from_str(&d, "%Y-%m-%d").is_ok());
    let t = text_of(timenow(vec![]));
    assert_eq!(t.len(), 8);
    assert_eq!(err(today(vec![num(1.0)])), "today() expects no arguments");
    assert_eq!(err(timenow(vec![num(1.0)])), "timenow() expects no arguments");
}

#[test]
fn days_between_dates() {
    assert_eq!(number(datediff(vec![s("2024-01-01"), s("2024-03-01")])), 60.0);
    assert_eq!(number(datediff(vec![s("2024-03-01"), s("2024-01-01")])), -60.0);
    assert_eq!(number(datediff(vec![s("2024-01-01"), s("2024-01-01")])), 0.0);
    assert_eq!(err(datediff(vec![s("2024-01-01")])), "datediff() expects 2 arguments");
    assert_eq!(err(datediff(vec![num(1.0), s("2024-01-01")])), "datediff(): first argument must be a date string");
    assert_eq!(err(datediff(vec![s("2024-01-01"), num(1.0)])), "datediff(): second argument must be a date string");
    assert_eq!(
        err(datediff(vec![s("2024/01/01"), s("2024-01-01")])),
        "datediff(): error parsing date1: input contains invalid characters"
    );
    assert_eq!(
        err(datediff(vec![s("2024-01-01"), s("2024-01")])),
        "datediff(): error parsing date2: premature end of input"
    );
}

#[test]
fn days_added_to_dates() {
    assert_eq!(text_of(dateadd(vec![s("2024-02-28"), num(1.0)])), "2024-02-29");
    assert_eq!(text_of(dateadd(vec![s("2024-01-31"), num(-31.7)])), "2023-12-31");
    assert_eq!(err(dateadd(vec![s("2024-01-31"), s("1")])), "dateadd(): second argument must be a number");
    assert_eq!(err(dateadd(vec![s("31.01.2024"), num(1.0)])), "dateadd(): error parsing date: input contains invalid characters");
    assert!(checked_dateadd(vec![s("2024-01-01"), num(1e12)]).is_none());
    assert!(checked_dateadd(vec![s("2024-01-01"), num(1e9)]).is_none());
    assert_eq!(text_of(checked_dateadd(vec![s("2024-01-01"), num(366.0)]).unwrap()), "2025-01-01");
    assert_eq!(
        err(checked_dateadd(vec![s("bad"), num(1e12)]).unwrap()),
        "dateadd(): error parsing date: input contains invalid characters"
    );
}

#[test]
fn dates_written_and_read_with_formats() {
    assert_eq!(text_of(dateformat(vec![s("2024-03-05"), s("%d/%m/%Y")])), "05/03/2024");
    assert_eq!(text_of(dateformat(vec![s("2024-03-05"), s("%A, %B %e")])), "Tuesday, March  5");
    assert!(checked_dateformat(vec![s("2024-03-05"), s("%H:%M")]).is_none());
    assert_eq!(text_of(checked_dateformat(vec![s("2024-03-05"), s("%j")]).unwrap()), "065");
    assert_eq!(err(dateformat(vec![s("2024-03-05"), num(1.0)])), "dateformat(): second argument must be a format string");
    assert_eq!(text_of(dateparse(vec![s("05/03/2024"), s("%d/%m/%Y")])), "2024-03-05");
    assert_eq!(
        err(dateparse(vec![s("05/03"), s("%d/%m/%Y")])),
        "dateparse(): error parsing date: premature end of input"
    );
}

#[test]
fn seconds_between_times() {
    assert_eq!(number(timediff(vec![s("10:00:00"), s("09:30:15")])), -1785.0);
    assert_eq!(number(timediff(vec![s("00:00:00"), s("23:59:59")])), 86399.0);
    assert_eq!(err(timediff(vec![s("10:00"), s("09:30:15")])), "timediff(): error parsing time1: premature end of input");
    assert_eq!(err(timediff(vec![s("10:00:00"), num(3.0)])), "timediff(): second argument must be a time string");
}

#[test]
fn times_added_round_the_clock() {
    assert_eq!(text_of(timeadd(vec![s("23:59:30"), s("seconds"), num(45.0)])), "00:00:15");
    assert_eq!(text_of(timeadd(vec![s("10:15:00"), s("minutes"), num(-30.0)])), "09:45:00");
    assert_eq!(text_of(timeadd(vec![s("10:15:00"), s("hours"), num(25.9)])), "11:15:00");
    assert_eq!(
        err(timeadd(vec![s("10:15:00"), s("days"), num(1.0)])),
        "timeadd(): unsupported unit. Use 'seconds', 'minutes', or 'hours'."
    );
    assert_eq!(err(timeadd(vec![s("10:15:00"), s("hours")])), "timeadd() expects 3 arguments");
    assert_eq!(err(timeadd(vec![s("10:15:00"), num(1.0), num(1.0)])), "timeadd(): second argument must be a unit string");
    assert_eq!(err(timeadd(vec![s("10:15:00"), s("hours"), s("1")])), "timeadd(): third argument must be a number");
    assert!(checked_timeadd(vec![s("10:15:00"), s("seconds"), num(1e16)]).is_none());
    assert!(checked_timeadd(vec![s("10:15:00"), s("hours"), num(1e13)]).is_none());
    assert_eq!(text_of(checked_timeadd(vec![s("10:15:00"), s("hours"), num(1e9)]).unwrap()), "02:15:00");
    assert_eq!(
        err(checked_timeadd(vec![s("10:15:00"), s("weeks"), num(1e16)]).unwrap()),
        "timeadd(): unsupported unit. Use 'seconds', 'minutes', or 'hours'."
    );
}

#[test]
fn times_written_and_read_with_formats() {
    assert_eq!(text_of(timeformat(vec![s("13:05:09"), s("%I:%M %p")])), "01:05 PM");
    assert!(checked_timeformat(vec![s("13:05:09"), s("%Y")]).is_none());
    assert_eq!(text_of(checked_timeformat(vec![s("13:05:09"), s("%H%M")]).unwrap()), "1305");
    assert_eq!(text_of(timeparse(vec![s("01:05 PM"), s("%I:%M %p")])), "13:05:00");
    assert_eq!(text_of(timeparse(vec![s("23:59:60"), s("%H:%M:%S")])), "23:59:60");
    assert_eq!(err(timeparse(vec![s("1305"), s("%H:%M")])), "timeparse(): error parsing time: input contains invalid characters");
}

#[test]
fn timer_picker_set_and_read() {
    let mut ui = Ui::new();
    let f = form(&mut ui);
    let p = text_of(createtimerpicker(&mut ui, vec![dup_form(&f)]));
    assert_eq!(ui.controls.get(&p).unwrap().text, "00:00");
    assert_eq!(ui.controls.get(&p).unwrap().control_type, "timerpicker");
    assert_eq!(ui.timerpickers.get(&p).unwrap().selected_time, (0, 0));
    assert_eq!(text_of(get_timerpicker_time(&ui, vec![s(&p)])), "00:00");
    set_timerpicker_time(&mut ui, vec![s(&p), s("13:45")]).unwrap();
    assert_eq!(text_of(get_timerpicker_time(&ui, vec![s(&p)])), "13:45");
    assert_eq!(ui.controls.get(&p).unwrap().text, "13:45");
    assert_eq!(ui.timerpickers.get(&p).unwrap().selected_time, (13 * 3600 + 45 * 60, 0));
    assert_eq!(
        err(set_timerpicker_time(&mut ui, vec![s(&p), s("xx")])),
        "Failed to parse time 'xx': input contains invalid characters"
    );
    assert_eq!(err(set_timerpicker_time(&mut ui, vec![s("none"), s("10:00")])), "Timerpicker not found");
    assert_eq!(
        err(get_timerpicker_time(&ui, vec![])),
        "get_timerpicker_time() expects 1 argument (timerpicker_id), got 0"
    );
    let q = text_of(createtimerpicker(&mut ui, vec![dup_form(&f), num(1.0), num(2.0), num(3.0), num(4.0), s("%H:%M:%S")]));
    assert_eq!(ui.controls.get(&q).unwrap().text, "00:00:00");
    assert_eq!(text_of(checked_get_timerpicker_time(&ui, vec![s(&q)]).unwrap()), "00:00:00");
    assert_eq!(text_of(checked_set_timerpicker_time(&mut ui, vec![s(&q), s("01:02:03")]).unwrap().map(|_| s("ok"))), "ok");
    assert!(checked_createtimerpicker(&mut ui, vec![dup_form(&f), num(0.0), num(0.0), num(1.0), num(1.0), s("%Y")]).is_none());
    assert_eq!(ui.timerpickers.entry_count(), 2);
}

#[test]
fn datetime_picker_set_and_read() {
    let mut ui = Ui::new();
    let f = form(&mut ui);
    let fmt = "%Y-%m-%d %H:%M:%S %z";
    let p = text_of(createdatetimepicker(&mut ui, vec![dup_form(&f), num(0.0), num(0.0), num(200.0), num(30.0), s(fmt)]));
    assert_eq!(ui.controls.get(&p).unwrap().control_type, "datetimepicker");
    assert_eq!(ui.datetimepickers.get(&p).unwrap().format, fmt);
    set_datetime(&mut ui, vec![s(&p), s("2024-01-02 03:04:05 +0000")]).unwrap();
    assert_eq!(ui.datetimepickers.get(&p).unwrap().selected, (1_704_164_645, 0));
    let shown = text_of(get_datetime(&ui, vec![s(&p)]));
    assert_eq!(shown, ui.controls.get(&p).unwrap().text);
    let local = chrono::DateTime::from_timestamp(1_704_164_645, 0).unwrap().with_timezone(&chrono::Local);
    assert_eq!(shown, local.format(fmt).to_string());
    assert_eq!(err(set_datetime(&mut ui, vec![s(&p), s("2024-01-02")])), "Invalid datetime format");
    assert_eq!(err(get_datetime(&ui, vec![s("none")])), "DateTimePicker not found");
    assert_eq!(err(set_datetime(&mut ui, vec![s(&p)])), "set_datetime() expects 2 arguments, got 1");
    let before = ui.controls.entry_count();
    assert!(checked_createdatetimepicker(&mut ui, vec![dup_form(&f), num(0.0), num(0.0), num(1.0), num(1.0), s("%Q")]).is_none());
    assert_eq!(ui.controls.entry_count(), before);
}

#[test]
fn days_added_are_counted_back() {
    for (start, n) in [("2024-01-31", 30.0), ("2000-02-29", -366.0), ("0001-01-01", 0.0), ("9999-12-01", 30.0)] {
        let later = text_of(dateadd(vec![s(start), num(n)]));
        assert_eq!(number(datediff(vec![s(start), s(&later)])), n);
    }
}
