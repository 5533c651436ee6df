//! Date-time pickers and time pickers: what each holds, and the calls that
//! create, set and read them. A date-time picker holds an instant as seconds
//! since 1970 in UTC and the nanoseconds within the second; it shows it in
//! the machine's time zone. A time picker holds a time of day as the
//! `datetime` module does.

use vstd::prelude::*;
use crate::containers::{boxed, made, place_from, white};
use crate::create::{add_control_as, arg_text, control_added, creation_error, new_identifier, opt_single, opt_text, parent_arg, SIZE_150, SIZE_200, SIZE_30};
use crate::datetime::{is_day, is_time, read_time, text_at, time_from_text, time_text, write_time};
use crate::gauges::SINGLE_ZERO;
use crate::text::{arity_error, arity_message, fails_with, text};
use crate::ui::{expects, expects_error, Color, ControlSettings, DockStyle, Ui};
use crate::value::Value;

verus! {

/// A time picker: the time of day it holds (second of the day and
/// nanoseconds), its format, and whether its popup is open.
pub struct TimerPickerState {
    pub selected_time: (u32, u32),
    pub format: String,
    pub is_open: bool,
}

/// A date-time picker: the instant it holds (seconds since 1970 in UTC and
/// nanoseconds), its format, and whether its popup is open.
pub struct DateTimePickerState {
    pub selected: (i64, u32),
    pub format: String,
    pub is_open: bool,
}

/// An instant that chrono holds: its day in the calendar, its time of day in
/// range.
pub open spec fn is_instant(t: (i64, u32)) -> bool {
    is_day(t.0 / 86_400 + 719_163) && is_time((t.0 % 86_400) as int, t.1 as int)
}

/// What `DateTime::parse_from_str(text, format)` gives: the instant, or `None`.
pub uninterp spec fn instant_from_text(text: Seq<char>, format: Seq<char>) -> Option<(i64, u32)>;

/// Whether chrono can write a date and time with an offset with the format.
pub uninterp spec fn full_format_fits(format: Seq<char>) -> bool;

/// `chrono::DateTime::parse_from_str`: the instant it reads, by its
/// timestamp and the nanoseconds within the second.
#[verifier::external_body]
fn read_instant(text: &str, format: &str) -> (r: Option<(i64, u32)>)
    ensures
        r == instant_from_text(text@, format@),
        r matches Some(t) ==> is_instant(t),
{
    match chrono::DateTime::parse_from_str(text, format) {
        Ok(d) => Some((d.timestamp(), d.timestamp_subsec_nanos())),
        Err(_) => None,
    }
}

/// Whether `format(format).write_to` succeeds for a date and time with an
/// offset, tried on the first instant of 1970: a date, a time and an offset
/// fill every item that chrono's formatting knows, so whether it succeeds
/// rests on the format alone.
#[verifier::external_body]
fn fits_full(format: &str) -> (ok: bool)
    ensures
        ok == full_format_fits(format@),
{
    let mut s = String::new();
    chrono::DateTime::UNIX_EPOCH.fixed_offset().format(format).write_to(&mut s).is_ok()
}

/// Whether `chrono::DateTime::from_timestamp(secs, nanos)` gives an instant.
#[verifier::external_body]
fn instant_fits(t: (i64, u32)) -> (ok: bool)
    ensures
        ok == is_instant(t),
{
    chrono::DateTime::from_timestamp(t.0, t.1).is_some()
}

/// `chrono::Local::now()`, by its timestamp and nanoseconds. Which instant it
/// is is not stated: it is the clock's.
#[verifier::external_body]
fn local_now() -> (t: (i64, u32))
    ensures
        is_instant(t),
{
    let n = chrono::Local::now();
    (n.timestamp(), n.timestamp_subsec_nanos())
}

/// What chrono writes, with the format, of the instant of timestamp `secs`
/// and `nanos` nanoseconds seen at the fixed offset of `offset` seconds east
/// of UTC (`DateTime<FixedOffset>::format(format).to_string()`).
pub uninterp spec fn offset_text(secs: i64, nanos: u32, offset: i32, format: Seq<char>) -> Seq<char>;

/// An offset from UTC that chrono can hold: less than a day either way.
pub open spec fn within_a_day(o: i32) -> bool {
    -86_400 < o < 86_400
}

/// `s` is the instant `t` written with the format at some offset from UTC
/// that chrono can hold.
pub open spec fn written_at_some_offset(t: (i64, u32), format: Seq<char>, s: Seq<char>) -> bool {
    exists|o: i32| s == offset_text(t.0, t.1, o, format) && within_a_day(o)
}

/// The instant written with the format in the machine's time zone
/// (`with_timezone(&Local)`, then `format(format).to_string()`), with the
/// zone's offset from UTC at that instant (`local_minus_utc`). The text is
/// the instant written with the format at that fixed offset; which offset
/// it is rests on the machine's time zone, and is not stated.
#[verifier::external_body]
fn local_text(t: (i64, u32), format: &str) -> (r: (String, i32))
    requires
        is_instant(t),
        full_format_fits(format@),
    ensures
        r.0@ == offset_text(t.0, t.1, r.1, format@),
        within_a_day(r.1),
{
    let d = chrono::DateTime::from_timestamp(t.0, t.1).unwrap().with_timezone(&chrono::Local).fixed_offset();
    (d.format(format).to_string(), d.offset().local_minus_utc())
}

/// The format that a picker's creation is given, or its default.
pub open spec fn format_arg(args: Seq<Value>, d: Seq<char>) -> Seq<char> {
    arg_text(args, 5, d)
}

/// The calls of `createtimerpicker` whose format chrono can write midnight with.
pub open spec fn timerpicker_fits(before: Ui, args: Seq<Value>) -> bool {
    creation_error(args, "createtimerpicker"@, 1, 6, "1-6 arguments (form_id, [x, y, width, height, format])"@) is None
        && before.forms@.contains_key(parent_arg(args))
        ==> time_text(0, 0, format_arg(args, "%H:%M"@)) is Some
}

/// What `createtimerpicker` does.
pub open spec fn timerpicker_created(before: Ui, after: Ui, args: Seq<Value>, r: Result<Value, String>) -> bool {
    match creation_error(args, "createtimerpicker"@, 1, 6, "1-6 arguments (form_id, [x, y, width, height, format])"@) {
        Some(m) => fails_with(r, m) && after == before,
        None => if !before.forms@.contains_key(parent_arg(args)) {
            fails_with(r, "Parent form not found"@) && after == before
        } else {
            let id = r->Ok_0->String_0@;
            let f = format_arg(args, "%H:%M"@);
            &&& r matches Ok(Value::String(i)) && control_added(before, after, parent_arg(args), i)
            &&& time_text(0, 0, f) == Some(made(after, r).text@)
            &&& boxed(made(after, r), "timerpicker"@, parent_arg(args), made(after, r).text@,
                place_from(args, SIZE_150, SIZE_30), white(), (false, false), SINGLE_ZERO, DockStyle::NoDock, false,
                "horizontal"@, "solid"@)
            &&& after.timerpickers@ == before.timerpickers@.insert(id, after.timerpickers@[id])
            &&& after.timerpickers@[id].selected_time == (0u32, 0u32)
            &&& after.timerpickers@[id].format@ == f
            &&& !after.timerpickers@[id].is_open
            &&& after == (Ui { controls: after.controls, forms: after.forms, timerpickers: after.timerpickers, ..before })
        },
    }
}

/// `createtimerpicker(form, [x, y, width, height, format])`: a white time
/// picker, 150 by 30, at midnight, shown with the format (`%H:%M` unless told
/// otherwise).
pub fn createtimerpicker(ui: &mut Ui, args: Vec<Value>) -> (r: Result<Value, String>)
    requires
        timerpicker_fits(*old(ui), args@),
    ensures
        timerpicker_created(*old(ui), *final(ui), args@, r),
{
    if args.len() < 1 || args.len() > 6 {
        return Err(arity_error("createtimerpicker", "1-6 arguments (form_id, [x, y, width, height, format])", args.len()));
    }
    let form = match &args[0] {
        Value::FormObject(id) => id.clone(),
        _ => return Err(expects_error("createtimerpicker", "a Form identifier")),
    };
    if ui.forms.find(&form).is_none() {
        return Err(text("Parent form not found"));
    }
    let place = (
        opt_single(&args, 1, SINGLE_ZERO, SINGLE_ZERO),
        opt_single(&args, 2, SINGLE_ZERO, SINGLE_ZERO),
        opt_single(&args, 3, SIZE_150, SIZE_150),
        opt_single(&args, 4, SIZE_30, SIZE_30),
    );
    let format = opt_text(&args, 5, "%H:%M");
    let shown = match write_time(0, 0, format.as_str()) {
        Some(t) => t,
        None => return Err(String::new()),
    };
    let c = crate::containers::boxed_control("timerpicker", &form, shown, place, Color { r: 255, g: 255, b: 255, a: 255 },
        (false, false), SINGLE_ZERO, DockStyle::NoDock, false, text("horizontal"), text("solid"));
    let id = new_identifier();
    add_control_as(ui, &form, id.clone(), c);
    ui.timerpickers.insert(id.clone(), TimerPickerState { selected_time: (0, 0), format, is_open: false });
    Ok(Value::String(id))
}

/// `createtimerpicker`, or `None` where chrono cannot write midnight with the
/// format.
pub fn checked_createtimerpicker(ui: &mut Ui, args: Vec<Value>) -> (r: Option<Result<Value, String>>)
    ensures
        r is None <==> !timerpicker_fits(*old(ui), args@),
        r is None ==> *final(ui) == *old(ui),
        r matches Some(x) ==> timerpicker_created(*old(ui), *final(ui), args@, x),
{
    let ok = if args.len() < 1 || args.len() > 6 {
        true
    } else {
        match &args[0] {
            Value::FormObject(form) => {
                if ui.forms.find(form).is_none() {
                    true
                } else {
                    let format = opt_text(&args, 5, "%H:%M");
                    write_time(0, 0, format.as_str()).is_some()
                }
            },
            _ => true,
        }
    };
    if ok {
        Some(createtimerpicker(ui, args))
    } else {
        None
    }
}

/// The calls of `set_timerpicker_time` whose time, once read, chrono can
/// write with the picker's format.
pub open spec fn timerpicker_set_fits(before: Ui, args: Seq<Value>) -> bool {
    args.len() == 2 && args[0] is String && args[1] is String && before.timerpickers@.contains_key(text_at(args, 0))
        ==> {
        let st = before.timerpickers@[text_at(args, 0)];
        time_from_text(text_at(args, 1), st.format@) matches Ok(t) ==> time_text(t.0, t.1, st.format@) is Some
    }
}

/// What `set_timerpicker_time` does.
pub open spec fn timerpicker_time_set(before: Ui, after: Ui, args: Seq<Value>, r: Result<Value, String>) -> bool {
    if args.len() != 2 {
        fails_with(r, arity_message("set_timerpicker_time"@, "2 arguments (timerpicker_id, time_string)"@, args.len()))
            && after == before
    } else {
        match (args[0], args[1]) {
            (Value::String(ids), Value::String(ts)) => if !before.timerpickers@.contains_key(ids@) {
                fails_with(r, "Timerpicker not found"@) && after == before
            } else {
                let st = before.timerpickers@[ids@];
                match time_from_text(ts@, st.format@) {
                    Err(e) => fails_with(r, "Failed to parse time '"@ + ts@ + "': "@ + e) && after == before,
                    Ok(t) => {
                        &&& r == Ok::<Value, String>(Value::Null)
                        &&& after.timerpickers@ == before.timerpickers@.insert(ids@, TimerPickerState { selected_time: t, ..st })
                        &&& if before.controls@.contains_key(ids@) {
                            let c = after.controls@[ids@];
                            &&& after.controls@ == before.controls@.insert(ids@, ControlSettings { text: c.text, ..before.controls@[ids@] })
                            &&& time_text(t.0, t.1, st.format@) == Some(c.text@)
                        } else {
                            after.controls == before.controls
                        }
                        &&& after == (Ui { controls: after.controls, timerpickers: after.timerpickers, ..before })
                    },
                }
            },
            (Value::String(_), _) => fails_with(r, expects("set_timerpicker_time"@, "a time string"@)) && after == before,
            _ => fails_with(r, expects("set_timerpicker_time"@, "a timerpicker identifier"@)) && after == before,
        }
    }
}

fn parse_failure(ts: &String, e: &String) -> (s: String)
    ensures
        s@ == "Failed to parse time '"@ + ts@ + "': "@ + e@,
{
    let mut s = text("Failed to parse time '");
    s.append(ts.as_str());
    s.append("': ");
    s.append(e.as_str());
    s
}

/// `set_timerpicker_time(picker, text)`: the time read with the picker's
/// format, shown with it.
pub fn set_timerpicker_time(ui: &mut Ui, args: Vec<Value>) -> (r: Result<Value, String>)
    requires
        timerpicker_set_fits(*old(ui), args@),
    ensures
        timerpicker_time_set(*old(ui), *final(ui), args@, r),
{
    if args.len() != 2 {
        return Err(arity_error("set_timerpicker_time", "2 arguments (timerpicker_id, time_string)", args.len()));
    }
    let id = match &args[0] {
        Value::String(id) => id.clone(),
        _ => return Err(expects_error("set_timerpicker_time", "a timerpicker identifier")),
    };
    let ts = match &args[1] {
        Value::String(s) => s.clone(),
        _ => return Err(expects_error("set_timerpicker_time", "a time string")),
    };
    let slot = match ui.timerpickers.find(&id) {
        Some(i) => i,
        None => return Err(text("Timerpicker not found")),
    };
    let format = ui.timerpickers.value_at(slot).format.clone();
    let t = match read_time(ts.as_str(), format.as_str()) {
        Ok(t) => t,
        Err(e) => return Err(parse_failure(&ts, &e)),
    };
    let shown = match write_time(t.0, t.1, format.as_str()) {
        Some(x) => x,
        None => return Err(String::new()),
    };
    let st = ui.timerpickers.value_mut(slot);
    st.selected_time = t;
    match ui.controls.find(&id) {
        Some(j) => {
            let c = ui.controls.value_mut(j);
            c.text = shown;
        },
        None => {},
    }
    Ok(Value::Null)
}

/// `set_timerpicker_time`, or `None` where chrono cannot write the time it
/// read with the picker's format.
pub fn checked_set_timerpicker_time(ui: &mut Ui, args: Vec<Value>) -> (r: Option<Result<Value, String>>)
    ensures
        r is None <==> !timerpicker_set_fits(*old(ui), args@),
        r is None ==> *final(ui) == *old(ui),
        r matches Some(x) ==> timerpicker_time_set(*old(ui), *final(ui), args@, x),
{
    let ok = if args.len() != 2 {
        true
    } else {
        match (&args[0], &args[1]) {
            (Value::String(id), Value::String(ts)) => match ui.timerpickers.get(id) {
                Some(st) => match read_time(ts.as_str(), st.format.as_str()) {
                    Ok(t) => write_time(t.0, t.1, st.format.as_str()).is_some(),
                    Err(_) => true,
                },
                None => true,
            },
            _ => true,
        }
    };
    if ok {
        Some(set_timerpicker_time(ui, args))
    } else {
        None
    }
}

/// The calls of `get_timerpicker_time` whose picker's time chrono can write
/// with its format.
pub open spec fn timerpicker_get_fits(ui: Ui, args: Seq<Value>) -> bool {
    args.len() == 1 && args[0] is String && ui.timerpickers@.contains_key(text_at(args, 0)) ==> {
        let st = ui.timerpickers@[text_at(args, 0)];
        time_text(st.selected_time.0, st.selected_time.1, st.format@) is Some
    }
}

/// What `get_timerpicker_time` gives.
pub open spec fn timerpicker_time_read(ui: Ui, args: Seq<Value>, r: Result<Value, String>) -> bool {
    if args.len() != 1 {
        fails_with(r, arity_message("get_timerpicker_time"@, "1 argument (timerpicker_id)"@, args.len()))
    } else {
        match args[0] {
            Value::String(ids) => if ui.timerpickers@.contains_key(ids@) {
                let st = ui.timerpickers@[ids@];
                r matches Ok(Value::String(s)) && time_text(st.selected_time.0, st.selected_time.1, st.format@) == Some(s@)
            } else {
                fails_with(r, "Timerpicker not found"@)
            },
            _ => fails_with(r, expects("get_timerpicker_time"@, "a timerpicker identifier"@)),
        }
    }
}

/// `get_timerpicker_time(picker)`: the picker's time written with its format.
pub fn get_timerpicker_time(ui: &Ui, args: Vec<Value>) -> (r: Result<Value, String>)
    requires
        timerpicker_get_fits(*ui, args@),
    ensures
        timerpicker_time_read(*ui, args@, r),
{
    if args.len() != 1 {
        return Err(arity_error("get_timerpicker_time", "1 argument (timerpicker_id)", args.len()));
    }
    let id = match &args[0] {
        Value::String(id) => id,
        _ => return Err(expects_error("get_timerpicker_time", "a timerpicker identifier")),
    };
    match ui.timerpickers.get(id) {
        Some(st) => match write_time(st.selected_time.0, st.selected_time.1, st.format.as_str()) {
            Some(s) => Ok(Value::String(s)),
            None => Err(String::new()),
        },
        None => Err(text("Timerpicker not found")),
    }
}

/// `get_timerpicker_time`, or `None` where chrono cannot write the picker's
/// time with its format.
pub fn checked_get_timerpicker_time(ui: &Ui, args: Vec<Value>) -> (r: Option<Result<Value, String>>)
    ensures
        r is None <==> !timerpicker_get_fits(*ui, args@),
        r matches Some(x) ==> timerpicker_time_read(*ui, args@, x),
{
    let ok = if args.len() != 1 {
        true
    } else {
        match &args[0] {
            Value::String(id) => match ui.timerpickers.get(id) {
                Some(st) => write_time(st.selected_time.0, st.selected_time.1, st.format.as_str()).is_some(),
                None => true,
            },
            _ => true,
        }
    };
    if ok {
        Some(get_timerpicker_time(ui, args))
    } else {
        None
    }
}

/// The calls of `createdatetimepicker` whose format chrono can write a date
/// and time with.
pub open spec fn datetimepicker_fits(before: Ui, args: Seq<Value>) -> bool {
    creation_error(args, "createdatetimepicker"@, 1, 6, "1-6 arguments (form_id, [x, y, width, height, format])"@) is None
        && before.forms@.contains_key(parent_arg(args))
        ==> full_format_fits(format_arg(args, "%Y-%m-%d %H:%M:%S"@))
}

/// What `createdatetimepicker` does. The text it shows is an instant (the
/// clock's, read when the control is made) written with the format at the
/// machine's offset from UTC; which instant and offset is not stated.
pub open spec fn datetimepicker_created(before: Ui, after: Ui, args: Seq<Value>, r: Result<Value, String>) -> bool {
    match creation_error(args, "createdatetimepicker"@, 1, 6, "1-6 arguments (form_id, [x, y, width, height, format])"@) {
        Some(m) => fails_with(r, m) && after == before,
        None => if !before.forms@.contains_key(parent_arg(args)) {
            fails_with(r, "Parent form not found"@) && after == before
        } else {
            let id = r->Ok_0->String_0@;
            &&& r matches Ok(Value::String(i)) && control_added(before, after, parent_arg(args), i)
            &&& boxed(made(after, r), "datetimepicker"@, parent_arg(args), made(after, r).text@,
                place_from(args, SIZE_200, SIZE_30), white(), (false, false), SINGLE_ZERO, DockStyle::NoDock, false,
                "horizontal"@, "solid"@)
            &&& after.datetimepickers@ == before.datetimepickers@.insert(id, after.datetimepickers@[id])
            &&& is_instant(after.datetimepickers@[id].selected)
            &&& exists|t: (i64, u32)| is_instant(t) && written_at_some_offset(t, format_arg(args, "%Y-%m-%d %H:%M:%S"@), made(after, r).text@)
            &&& after.datetimepickers@[id].format@ == format_arg(args, "%Y-%m-%d %H:%M:%S"@)
            &&& !after.datetimepickers@[id].is_open
            &&& after == (Ui { controls: after.controls, forms: after.forms, datetimepickers: after.datetimepickers, ..before })
        },
    }
}

/// `createdatetimepicker(form, [x, y, width, height, format])`: a white
/// date-time picker, 200 by 30, at the current instant, shown with the format
/// (`%Y-%m-%d %H:%M:%S` unless told otherwise).
pub fn createdatetimepicker(ui: &mut Ui, args: Vec<Value>) -> (r: Result<Value, String>)
    requires
        datetimepicker_fits(*old(ui), args@),
    ensures
        datetimepicker_created(*old(ui), *final(ui), args@, r),
{
    if args.len() < 1 || args.len() > 6 {
        return Err(arity_error("createdatetimepicker", "1-6 arguments (form_id, [x, y, width, height, format])", args.len()));
    }
    let form = match &args[0] {
        Value::FormObject(id) => id.clone(),
        _ => return Err(expects_error("createdatetimepicker", "a Form identifier")),
    };
    if ui.forms.find(&form).is_none() {
        return Err(text("Parent form not found"));
    }
    let place = (
        opt_single(&args, 1, SINGLE_ZERO, SINGLE_ZERO),
        opt_single(&args, 2, SINGLE_ZERO, SINGLE_ZERO),
        opt_single(&args, 3, SIZE_200, SIZE_200),
        opt_single(&args, 4, SIZE_30, SIZE_30),
    );
    let format = opt_text(&args, 5, "%Y-%m-%d %H:%M:%S");
    let id = new_identifier();
    let (shown, _) = local_text(local_now(), format.as_str());
    let c = crate::containers::boxed_control("datetimepicker", &form, shown, place, Color { r: 255, g: 255, b: 255, a: 255 },
        (false, false), SINGLE_ZERO, DockStyle::NoDock, false, text("horizontal"), text("solid"));
    let state = DateTimePickerState { selected: local_now(), format, is_open: false };
    add_control_as(ui, &form, id.clone(), c);
    ui.datetimepickers.insert(id.clone(), state);
    Ok(Value::String(id))
}

/// `createdatetimepicker`, or `None` where chrono cannot write a date and
/// time with the format.
pub fn checked_createdatetimepicker(ui: &mut Ui, args: Vec<Value>) -> (r: Option<Result<Value, String>>)
    ensures
        r is None <==> !datetimepicker_fits(*old(ui), args@),
        r is None ==> *final(ui) == *old(ui),
        r matches Some(x) ==> datetimepicker_created(*old(ui), *final(ui), args@, x),
{
    let ok = if args.len() < 1 || args.len() > 6 {
        true
    } else {
        match &args[0] {
            Value::FormObject(form) => {
                if ui.forms.find(form).is_none() {
                    true
                } else {
                    let format = opt_text(&args, 5, "%Y-%m-%d %H:%M:%S");
                    fits_full(format.as_str())
                }
            },
            _ => true,
        }
    };
    if ok {
        Some(createdatetimepicker(ui, args))
    } else {
        None
    }
}

/// The calls of `set_datetime` whose picker's format chrono can write a date
/// and time with, where the text reads.
pub open spec fn datetime_set_fits(before: Ui, args: Seq<Value>) -> bool {
    args.len() == 2 && args[0] is String && args[1] is String && before.datetimepickers@.contains_key(text_at(args, 0))
        ==> {
        let st = before.datetimepickers@[text_at(args, 0)];
        instant_from_text(text_at(args, 1), st.format@) is Some ==> full_format_fits(st.format@)
    }
}

/// What `set_datetime` does. The text the control then shows is the instant
/// written with the picker's format at the machine's offset from UTC, which
/// is not stated.
pub open spec fn datetime_set(before: Ui, after: Ui, args: Seq<Value>, r: Result<Value, String>) -> bool {
    if args.len() != 2 {
        fails_with(r, arity_message("set_datetime"@, "2 arguments"@, args.len())) && after == before
    } else {
        match (args[0], args[1]) {
            (Value::String(ids), Value::String(ts)) => if !before.datetimepickers@.contains_key(ids@) {
                fails_with(r, "DateTimePicker not found"@) && after == before
            } else {
                let st = before.datetimepickers@[ids@];
                match instant_from_text(ts@, st.format@) {
                    None => fails_with(r, "Invalid datetime format"@) && after == before,
                    Some(t) => {
                        &&& r == Ok::<Value, String>(Value::Null)
                        &&& after.datetimepickers@ == before.datetimepickers@.insert(ids@, DateTimePickerState { selected: t, ..st })
                        &&& if before.controls@.contains_key(ids@) {
                            &&& after.controls@ == before.controls@.insert(
                                ids@,
                                ControlSettings { text: after.controls@[ids@].text, ..before.controls@[ids@] },
                            )
                            &&& written_at_some_offset(t, st.format@, after.controls@[ids@].text@)
                        } else {
                            after.controls == before.controls
                        }
                        &&& after == (Ui { controls: after.controls, datetimepickers: after.datetimepickers, ..before })
                    },
                }
            },
            (Value::String(_), _) => fails_with(r, expects("set_datetime"@, "a datetime string"@)) && after == before,
            _ => fails_with(r, expects("set_datetime"@, "a control identifier"@)) && after == before,
        }
    }
}

/// `set_datetime(picker, text)`: the instant read with the picker's format
/// (its offset included), shown in the machine's time zone.
pub fn set_datetime(ui: &mut Ui, args: Vec<Value>) -> (r: Result<Value, String>)
    requires
        datetime_set_fits(*old(ui), args@),
    ensures
        datetime_set(*old(ui), *final(ui), args@, r),
{
    if args.len() != 2 {
        return Err(arity_error("set_datetime", "2 arguments", args.len()));
    }
    let id = match &args[0] {
        Value::String(id) => id.clone(),
        _ => return Err(expects_error("set_datetime", "a control identifier")),
    };
    let ts = match &args[1] {
        Value::String(s) => s.clone(),
        _ => return Err(expects_error("set_datetime", "a datetime string")),
    };
    let slot = match ui.datetimepickers.find(&id) {
        Some(i) => i,
        None => return Err(text("DateTimePicker not found")),
    };
    let format = ui.datetimepickers.value_at(slot).format.clone();
    let t = match read_instant(ts.as_str(), format.as_str()) {
        Some(t) => t,
        None => return Err(text("Invalid datetime format")),
    };
    let st = ui.datetimepickers.value_mut(slot);
    st.selected = t;
    match ui.controls.find(&id) {
        Some(j) => {
            let (shown, _) = local_text(t, format.as_str());
            let c = ui.controls.value_mut(j);
            c.text = shown;
        },
        None => {},
    }
    Ok(Value::Null)
}

/// `set_datetime`, or `None` where chrono cannot write a date and time with
/// the picker's format.
pub fn checked_set_datetime(ui: &mut Ui, args: Vec<Value>) -> (r: Option<Result<Value, String>>)
    ensures
        r is None <==> !datetime_set_fits(*old(ui), args@),
        r is None ==> *final(ui) == *old(ui),
        r matches Some(x) ==> datetime_set(*old(ui), *final(ui), args@, x),
{
    let ok = if args.len() != 2 {
        true
    } else {
        match (&args[0], &args[1]) {
            (Value::String(id), Value::String(ts)) => match ui.datetimepickers.get(id) {
                Some(st) => read_instant(ts.as_str(), st.format.as_str()).is_none() || fits_full(st.format.as_str()),
                None => true,
            },
            _ => true,
        }
    };
    if ok {
        Some(set_datetime(ui, args))
    } else {
        None
    }
}

/// The calls of `get_datetime` whose picker holds an instant of chrono's
/// range and whose format chrono can write a date and time with.
pub open spec fn datetime_get_fits(ui: Ui, args: Seq<Value>) -> bool {
    args.len() == 1 && args[0] is String && ui.datetimepickers@.contains_key(text_at(args, 0)) ==> {
        let st = ui.datetimepickers@[text_at(args, 0)];
        is_instant(st.selected) && full_format_fits(st.format@)
    }
}

/// What `get_datetime` gives: the picker's instant written with its format
/// at the machine's offset from UTC, which is not stated.
pub open spec fn datetime_read(ui: Ui, args: Seq<Value>, r: Result<Value, String>) -> bool {
    if args.len() != 1 {
        fails_with(r, arity_message("get_datetime"@, "1 argument"@, args.len()))
    } else {
        match args[0] {
            Value::String(ids) => if ui.datetimepickers@.contains_key(ids@) {
                let st = ui.datetimepickers@[ids@];
                r matches Ok(Value::String(s)) && written_at_some_offset(st.selected, st.format@, s@)
            } else {
                fails_with(r, "DateTimePicker not found"@)
            },
            _ => fails_with(r, expects("get_datetime"@, "a control identifier"@)),
        }
    }
}

/// `get_datetime(picker)`: the picker's instant written with its format in
/// the machine's time zone.
pub fn get_datetime(ui: &Ui, args: Vec<Value>) -> (r: Result<Value, String>)
    requires
        datetime_get_fits(*ui, args@),
    ensures
        datetime_read(*ui, args@, r),
{
    if args.len() != 1 {
        return Err(arity_error("get_datetime", "1 argument", args.len()));
    }
    let id = match &args[0] {
        Value::String(id) => id,
        _ => return Err(expects_error("get_datetime", "a control identifier")),
    };
    match ui.datetimepickers.get(id) {
        Some(st) => {
            let (shown, _) = local_text(st.selected, st.format.as_str());
            Ok(Value::String(shown))
        },
        None => Err(text("DateTimePicker not found")),
    }
}

/// `get_datetime`, or `None` where the picker's instant is beyond chrono's
/// range or chrono cannot write a date and time with its format.
pub fn checked_get_datetime(ui: &Ui, args: Vec<Value>) -> (r: Option<Result<Value, String>>)
    ensures
        r is None <==> !datetime_get_fits(*ui, args@),
        r matches Some(x) ==> datetime_read(*ui, args@, x),
{
    let ok = if args.len() != 1 {
        true
    } else {
        match &args[0] {
            Value::String(id) => match ui.datetimepickers.get(id) {
                Some(st) => instant_fits(st.selected) && fits_full(st.format.as_str()),
                None => true,
            },
            _ => true,
        }
    };
    if ok {
        Some(get_datetime(ui, args))
    } else {
        None
    }
}

} // verus!
