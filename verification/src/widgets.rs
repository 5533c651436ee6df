//! Timers, pages controls, the file dialog's options and results, grid
//! layouts and drawing turtles.

use vstd::prelude::*;
use crate::number::{holds_integer, nearest_representable, number_from_u64, number_from_usize, number_to_usize, saturating_usize};
use crate::registry::Registry;
use crate::text::{arity_error, arity_message, fails_with, text};
use crate::ui::{
    expects, expects_error, now, DrawyState, GridLayoutState, Page, PagesState, TimerState, Ui, ALPHA_CLEAR,
    ALPHA_OPAQUE,
};
use crate::value::{take_one, take_two, Value};
use crate::ui::FileDialogOptions;

verus! {

/// The identifier that the first argument gives.
pub open spec fn id_arg(args: Seq<Value>) -> Seq<char> {
    match args[0] {
        Value::String(id) => id@,
        _ => Seq::empty(),
    }
}

/// The arguments of a call that names one thing by the text identifier in its
/// first argument and takes `n` arguments: the error that they give, if any.
pub open spec fn id_call_error(
    args: Seq<Value>,
    n: nat,
    name: Seq<char>,
    arity: Seq<char>,
    id_what: Seq<char>,
) -> Option<Seq<char>> {
    if args.len() != n {
        Some(arity_message(name, arity, args.len()))
    } else if !(args[0] is String) {
        Some(expects(name, id_what))
    } else {
        None
    }
}

/// `x as u32`: NaN and negative numbers give 0, numbers beyond the range
/// give `u32::MAX`, the others their whole part.
pub open spec fn saturating_u32(b: u64) -> nat {
    if saturating_usize(b) > u32::MAX {
        u32::MAX as nat
    } else {
        saturating_usize(b)
    }
}

/// `x as u32` (saturating conversion toward zero).
pub fn number_to_u32(b: u64) -> (r: u32)
    ensures
        r as nat == saturating_u32(b),
{
    let u = number_to_usize(b);
    if u > u32::MAX as usize {
        u32::MAX
    } else {
        u as u32
    }
}

// ---------------------------------------------------------------- timers

/// A new timer: stopped, never ticked, with the given interval and callback.
pub fn new_timer(interval: u32, callback: Option<Value>) -> (t: TimerState)
    ensures
        !t.enabled,
        t.interval == interval,
        t.last_tick is None,
        t.callback == callback,
{
    TimerState { enabled: false, interval, last_tick: None, callback }
}

/// What switching a timer on or off does to it: it takes the flag, and a
/// timer switched on for the first time gets a time of last tick.
pub open spec fn timer_switched(before: TimerState, after: TimerState, on: bool) -> bool {
    &&& after == (TimerState { enabled: on, last_tick: after.last_tick, ..before })
    &&& if on && before.last_tick is None {
        after.last_tick is Some
    } else {
        after.last_tick == before.last_tick
    }
}

/// `settimerenabled(timer, flag)`.
pub fn settimerenabled(ui: &mut Ui, args: Vec<Value>) -> (r: Result<Value, String>)
    ensures
        match id_call_error(args@, 2, "settimerenabled"@, "2 arguments (timer_id, enabled)"@, "a timer identifier"@) {
            Some(m) => fails_with(r, m) && *final(ui) == *old(ui),
            None => match args@[1] {
                Value::Bool(b) => {
                    let id = id_arg(args@);
                    if old(ui).timers@.contains_key(id) {
                        &&& r == Ok::<Value, String>(Value::Null)
                        &&& final(ui).timers@ == old(ui).timers@.insert(id, final(ui).timers@[id])
                        &&& timer_switched(old(ui).timers@[id], final(ui).timers@[id], b)
                        &&& *final(ui) == (Ui { timers: final(ui).timers, ..*old(ui) })
                    } else {
                        fails_with(r, "Timer not found"@) && *final(ui) == *old(ui)
                    }
                },
                _ => fails_with(r, expects("settimerenabled"@, "a boolean"@)) && *final(ui) == *old(ui),
            },
        },
{
    if args.len() != 2 {
        return Err(arity_error("settimerenabled", "2 arguments (timer_id, enabled)", args.len()));
    }
    let id = match &args[0] {
        Value::String(id) => id,
        _ => return Err(expects_error("settimerenabled", "a timer identifier")),
    };
    let b = match &args[1] {
        Value::Bool(b) => *b,
        _ => return Err(expects_error("settimerenabled", "a boolean")),
    };
    match ui.timers.find(id) {
        Some(i) => {
            let t = ui.timers.value_mut(i);
            t.enabled = b;
            if b && t.last_tick.is_none() {
                t.last_tick = Some(now());
            }
            Ok(Value::Null)
        },
        None => Err(text("Timer not found")),
    }
}

/// `gettimerenabled(timer)`.
pub fn gettimerenabled(ui: &Ui, args: Vec<Value>) -> (r: Result<Value, String>)
    ensures
        match id_call_error(args@, 1, "gettimerenabled"@, "1 argument (timer_id)"@, "a timer identifier"@) {
            Some(m) => fails_with(r, m),
            None => if ui.timers@.contains_key(id_arg(args@)) {
                r == Ok::<Value, String>(Value::Bool(ui.timers@[id_arg(args@)].enabled))
            } else {
                fails_with(r, "Timer not found"@)
            },
        },
{
    if args.len() != 1 {
        return Err(arity_error("gettimerenabled", "1 argument (timer_id)", args.len()));
    }
    let id = match &args[0] {
        Value::String(id) => id,
        _ => return Err(expects_error("gettimerenabled", "a timer identifier")),
    };
    match ui.timers.get(id) {
        Some(t) => Ok(Value::Bool(t.enabled)),
        None => Err(text("Timer not found")),
    }
}

/// `settimerinterval(timer, milliseconds)`: the number is cut down to a
/// whole number of milliseconds that fits in 32 bits.
pub fn settimerinterval(ui: &mut Ui, args: Vec<Value>) -> (r: Result<Value, String>)
    ensures
        match id_call_error(args@, 2, "settimerinterval"@, "2 arguments (timer_id, interval)"@, "a timer identifier"@) {
            Some(m) => fails_with(r, m) && *final(ui) == *old(ui),
            None => match args@[1] {
                Value::Number(n) => {
                    let id = id_arg(args@);
                    if old(ui).timers@.contains_key(id) {
                        &&& r == Ok::<Value, String>(Value::Null)
                        &&& final(ui).timers@ == old(ui).timers@.insert(
                            id,
                            TimerState { interval: saturating_u32(n) as u32, ..old(ui).timers@[id] },
                        )
                        &&& *final(ui) == (Ui { timers: final(ui).timers, ..*old(ui) })
                    } else {
                        fails_with(r, "Timer not found"@) && *final(ui) == *old(ui)
                    }
                },
                _ => fails_with(r, expects("settimerinterval"@, "a number"@)) && *final(ui) == *old(ui),
            },
        },
{
    if args.len() != 2 {
        return Err(arity_error("settimerinterval", "2 arguments (timer_id, interval)", args.len()));
    }
    let id = match &args[0] {
        Value::String(id) => id,
        _ => return Err(expects_error("settimerinterval", "a timer identifier")),
    };
    let interval = match &args[1] {
        Value::Number(n) => number_to_u32(*n),
        _ => return Err(expects_error("settimerinterval", "a number")),
    };
    match ui.timers.find(id) {
        Some(i) => {
            let t = ui.timers.value_mut(i);
            t.interval = interval;
            Ok(Value::Null)
        },
        None => Err(text("Timer not found")),
    }
}

/// `gettimerinterval(timer)`: the interval in milliseconds.
pub fn gettimerinterval(ui: &Ui, args: Vec<Value>) -> (r: Result<Value, String>)
    ensures
        match id_call_error(args@, 1, "gettimerinterval"@, "1 argument (timer_id)"@, "a timer identifier"@) {
            Some(m) => fails_with(r, m),
            None => if ui.timers@.contains_key(id_arg(args@)) {
                r matches Ok(Value::Number(v)) && holds_integer(
                    v,
                    nearest_representable(ui.timers@[id_arg(args@)].interval as nat),
                    false,
                )
            } else {
                fails_with(r, "Timer not found"@)
            },
        },
{
    if args.len() != 1 {
        return Err(arity_error("gettimerinterval", "1 argument (timer_id)", args.len()));
    }
    let id = match &args[0] {
        Value::String(id) => id,
        _ => return Err(expects_error("gettimerinterval", "a timer identifier")),
    };
    match ui.timers.get(id) {
        Some(t) => Ok(Value::Number(number_from_u64(t.interval as u64, false))),
        None => Err(text("Timer not found")),
    }
}

/// `starttimer(timer)`.
pub fn starttimer(ui: &mut Ui, args: Vec<Value>) -> (r: Result<Value, String>)
    ensures
        match id_call_error(args@, 1, "starttimer"@, "1 argument (timer_id)"@, "a timer identifier"@) {
            Some(m) => fails_with(r, m) && *final(ui) == *old(ui),
            None => {
                let id = id_arg(args@);
                if old(ui).timers@.contains_key(id) {
                    &&& r == Ok::<Value, String>(Value::Null)
                    &&& final(ui).timers@ == old(ui).timers@.insert(id, final(ui).timers@[id])
                    &&& timer_switched(old(ui).timers@[id], final(ui).timers@[id], true)
                    &&& *final(ui) == (Ui { timers: final(ui).timers, ..*old(ui) })
                } else {
                    fails_with(r, "Timer not found"@) && *final(ui) == *old(ui)
                }
            },
        },
{
    if args.len() != 1 {
        return Err(arity_error("starttimer", "1 argument (timer_id)", args.len()));
    }
    let id = match &args[0] {
        Value::String(id) => id,
        _ => return Err(expects_error("starttimer", "a timer identifier")),
    };
    match ui.timers.find(id) {
        Some(i) => {
            let t = ui.timers.value_mut(i);
            t.enabled = true;
            if t.last_tick.is_none() {
                t.last_tick = Some(now());
            }
            Ok(Value::Null)
        },
        None => Err(text("Timer not found")),
    }
}

/// `stoptimer(timer)`.
pub fn stoptimer(ui: &mut Ui, args: Vec<Value>) -> (r: Result<Value, String>)
    ensures
        match id_call_error(args@, 1, "stoptimer"@, "1 argument (timer_id)"@, "a timer identifier"@) {
            Some(m) => fails_with(r, m) && *final(ui) == *old(ui),
            None => {
                let id = id_arg(args@);
                if old(ui).timers@.contains_key(id) {
                    &&& r == Ok::<Value, String>(Value::Null)
                    &&& final(ui).timers@ == old(ui).timers@.insert(
                        id,
                        TimerState { enabled: false, ..old(ui).timers@[id] },
                    )
                    &&& *final(ui) == (Ui { timers: final(ui).timers, ..*old(ui) })
                } else {
                    fails_with(r, "Timer not found"@) && *final(ui) == *old(ui)
                }
            },
        },
{
    if args.len() != 1 {
        return Err(arity_error("stoptimer", "1 argument (timer_id)", args.len()));
    }
    let id = match &args[0] {
        Value::String(id) => id,
        _ => return Err(expects_error("stoptimer", "a timer identifier")),
    };
    match ui.timers.find(id) {
        Some(i) => {
            let t = ui.timers.value_mut(i);
            t.enabled = false;
            Ok(Value::Null)
        },
        None => Err(text("Timer not found")),
    }
}

// ----------------------------------------------------------------- pages

/// What showing page `idx` of the pages control `id` does.
pub open spec fn page_shown(before: Ui, after: Ui, id: Seq<char>, idx: usize, r: Result<Value, String>) -> bool {
    if !before.pages@.contains_key(id) {
        fails_with(r, "Pages ID not found"@) && after == before
    } else {
        let p = before.pages@[id];
        if idx >= p.pages@.len() {
            fails_with(r, "Page index out of bounds"@) && after == before
        } else if p.active_page_index == idx {
            r == Ok::<Value, String>(Value::Null) && after == before
        } else {
            let q = after.pages@[id];
            &&& r == Ok::<Value, String>(Value::Null)
            &&& after.pages@ == before.pages@.insert(id, q)
            &&& after == (Ui { pages: after.pages, ..before })
            &&& if p.use_transition {
                &&& q == (PagesState {
                    active_page_index: idx,
                    in_transition: true,
                    transition_alpha: ALPHA_CLEAR,
                    transition_start_time: q.transition_start_time,
                    ..p
                })
                &&& q.transition_start_time is Some
            } else {
                q == (PagesState { active_page_index: idx, ..p })
            }
        }
    }
}

/// The result and effect of `showpage` and `setpageindex`.
pub open spec fn showpage_effect(before: Ui, after: Ui, args: Seq<Value>, r: Result<Value, String>) -> bool {
    if args.len() != 2 {
        fails_with(r, arity_message("showpage"@, "2 arguments"@, args.len())) && after == before
    } else {
        match (args[0], args[1]) {
            (Value::String(id), Value::Number(n)) => page_shown(before, after, id@, saturating_usize(n) as usize, r),
            (Value::String(_), _) => fails_with(r, "Second argument must be a page index (number)"@)
                && after == before,
            _ => fails_with(r, "First argument must be a Pages ID (string)"@) && after == before,
        }
    }
}

/// `showpage(pages, index)`: the page becomes the one shown, fading in when
/// the control fades.
pub fn showpage(ui: &mut Ui, args: Vec<Value>) -> (r: Result<Value, String>)
    ensures
        showpage_effect(*old(ui), *final(ui), args@, r),
{
    if args.len() != 2 {
        return Err(arity_error("showpage", "2 arguments", args.len()));
    }
    let id = match &args[0] {
        Value::String(id) => id,
        _ => return Err(text("First argument must be a Pages ID (string)")),
    };
    let idx = match &args[1] {
        Value::Number(n) => number_to_usize(*n),
        _ => return Err(text("Second argument must be a page index (number)")),
    };
    match ui.pages.find(id) {
        Some(i) => {
            let count = ui.pages.value_at(i).pages.len();
            if idx >= count {
                return Err(text("Page index out of bounds"));
            }
            if ui.pages.value_at(i).active_page_index != idx {
                let st = ui.pages.value_mut(i);
                st.active_page_index = idx;
                if st.use_transition {
                    st.in_transition = true;
                    st.transition_alpha = ALPHA_CLEAR;
                    st.transition_start_time = Some(now());
                }
            }
            Ok(Value::Null)
        },
        None => Err(text("Pages ID not found")),
    }
}

/// `setpageindex(pages, index)`: the same as `showpage`.
pub fn setpageindex(ui: &mut Ui, args: Vec<Value>) -> (r: Result<Value, String>)
    ensures
        showpage_effect(*old(ui), *final(ui), args@, r),
{
    showpage(ui, args)
}

/// `hidepage(pages, index)`: hiding the page shown shows the next one (the
/// first after the last), fading in; hiding another page does nothing.
pub fn hidepage(ui: &mut Ui, args: Vec<Value>) -> (r: Result<Value, String>)
    ensures
        args.len() != 2 ==> fails_with(r, arity_message("hidepage"@, "2 arguments"@, args.len() as nat))
            && *final(ui) == *old(ui),
        args.len() == 2 ==> match (args@[0], args@[1]) {
            (Value::String(id), Value::Number(n)) => if !old(ui).pages@.contains_key(id@) {
                fails_with(r, "Pages ID not found"@) && *final(ui) == *old(ui)
            } else {
                let p = old(ui).pages@[id@];
                let q = final(ui).pages@[id@];
                &&& r == Ok::<Value, String>(Value::Null)
                &&& if p.active_page_index == saturating_usize(n) && p.pages@.len() > 1 {
                    &&& final(ui).pages@ == old(ui).pages@.insert(id@, q)
                    &&& q == (PagesState {
                        active_page_index: ((p.active_page_index + 1) % (p.pages@.len() as int)) as usize,
                        in_transition: true,
                        transition_alpha: ALPHA_CLEAR,
                        transition_start_time: q.transition_start_time,
                        ..p
                    })
                    &&& q.transition_start_time is Some
                    &&& *final(ui) == (Ui { pages: final(ui).pages, ..*old(ui) })
                } else {
                    *final(ui) == *old(ui)
                }
            },
            (Value::String(_), _) => fails_with(r, "Second argument must be a page index (number)"@)
                && *final(ui) == *old(ui),
            _ => fails_with(r, "First argument must be a Pages ID (string)"@) && *final(ui) == *old(ui),
        },
{
    if args.len() != 2 {
        return Err(arity_error("hidepage", "2 arguments", args.len()));
    }
    let id = match &args[0] {
        Value::String(id) => id,
        _ => return Err(text("First argument must be a Pages ID (string)")),
    };
    let idx = match &args[1] {
        Value::Number(n) => number_to_usize(*n),
        _ => return Err(text("Second argument must be a page index (number)")),
    };
    match ui.pages.find(id) {
        Some(i) => {
            let count = ui.pages.value_at(i).pages.len();
            if ui.pages.value_at(i).active_page_index == idx && count > 1 {
                let st = ui.pages.value_mut(i);
                st.active_page_index = (idx % count + 1) % count;
                st.in_transition = true;
                st.transition_alpha = ALPHA_CLEAR;
                st.transition_start_time = Some(now());
                proof {
                    let x = idx as int;
                    let c = count as int;
                    vstd::arithmetic::div_mod::lemma_add_mod_noop(x, 1, c);
                    vstd::arithmetic::div_mod::lemma_small_mod(1, c as nat);
                    assert(((x % c) + 1) % c == (x + 1) % c);
                }
            }
            Ok(Value::Null)
        },
        None => Err(text("Pages ID not found")),
    }
}

/// `getpageindex(pages)`: the index of the page shown.
pub fn getpageindex(ui: &Ui, args: Vec<Value>) -> (r: Result<Value, String>)
    ensures
        args.len() != 1 ==> fails_with(r, arity_message("getindex"@, "1 argument"@, args.len() as nat)),
        args.len() == 1 ==> match args@[0] {
            Value::String(id) => if ui.pages@.contains_key(id@) {
                r matches Ok(Value::Number(v)) && holds_integer(
                    v,
                    nearest_representable(ui.pages@[id@].active_page_index as nat),
                    false,
                )
            } else {
                fails_with(r, "Pages ID not found"@)
            },
            _ => fails_with(r, "Argument must be a Pages ID (string)"@),
        },
{
    if args.len() != 1 {
        return Err(arity_error("getindex", "1 argument", args.len()));
    }
    let id = match &args[0] {
        Value::String(id) => id,
        _ => return Err(text("Argument must be a Pages ID (string)")),
    };
    match ui.pages.get(id) {
        Some(p) => Ok(Value::Number(number_from_usize(p.active_page_index))),
        None => Err(text("Pages ID not found")),
    }
}

/// `addpage(pages, title)`: a page with no controls goes last.
pub fn addpage(ui: &mut Ui, args: Vec<Value>) -> (r: Result<Value, String>)
    ensures
        args.len() != 2 ==> fails_with(r, arity_message("addpage"@, "2 arguments"@, args.len() as nat))
            && *final(ui) == *old(ui),
        args.len() == 2 ==> match (args@[0], args@[1]) {
            (Value::String(id), Value::String(title)) => if old(ui).pages@.contains_key(id@) {
                let p = old(ui).pages@[id@];
                let q = final(ui).pages@[id@];
                &&& r == Ok::<Value, String>(Value::Null)
                &&& final(ui).pages@ == old(ui).pages@.insert(id@, q)
                &&& q == (PagesState { pages: q.pages, ..p })
                &&& q.pages@ == p.pages@.push(Page { title: title, control_ids: q.pages@.last().control_ids })
                &&& q.pages@.last().control_ids@ == Seq::<String>::empty()
                &&& *final(ui) == (Ui { pages: final(ui).pages, ..*old(ui) })
            } else {
                fails_with(r, "Pages ID not found"@) && *final(ui) == *old(ui)
            },
            (Value::String(_), _) => fails_with(r, "Second argument must be a title (string)"@)
                && *final(ui) == *old(ui),
            _ => fails_with(r, "First argument must be a Pages ID (string)"@) && *final(ui) == *old(ui),
        },
{
    if args.len() != 2 {
        return Err(arity_error("addpage", "2 arguments", args.len()));
    }
    let (a, b) = take_two(args);
    let id = match a {
        Value::String(id) => id,
        _ => return Err(text("First argument must be a Pages ID (string)")),
    };
    let title = match b {
        Value::String(t) => t,
        _ => return Err(text("Second argument must be a title (string)")),
    };
    match ui.pages.find(&id) {
        Some(i) => {
            let st = ui.pages.value_mut(i);
            st.pages.push(Page { title, control_ids: Vec::new() });
            Ok(Value::Null)
        },
        None => Err(text("Pages ID not found")),
    }
}

/// `removepage(pages, index)`: the page goes; the page shown stays within range.
pub fn removepage(ui: &mut Ui, args: Vec<Value>) -> (r: Result<Value, String>)
    ensures
        args.len() != 2 ==> fails_with(r, arity_message("removepage"@, "2 arguments"@, args.len() as nat))
            && *final(ui) == *old(ui),
        args.len() == 2 ==> match (args@[0], args@[1]) {
            (Value::String(id), Value::Number(n)) => if !old(ui).pages@.contains_key(id@) {
                fails_with(r, "Pages ID not found"@) && *final(ui) == *old(ui)
            } else {
                let p = old(ui).pages@[id@];
                let q = final(ui).pages@[id@];
                let idx = saturating_usize(n);
                if idx >= p.pages@.len() {
                    fails_with(r, "Page index out of bounds"@) && *final(ui) == *old(ui)
                } else {
                    &&& r == Ok::<Value, String>(Value::Null)
                    &&& final(ui).pages@ == old(ui).pages@.insert(id@, q)
                    &&& q.pages@ == p.pages@.remove(idx as int)
                    &&& q == (PagesState {
                        pages: q.pages,
                        active_page_index: if p.active_page_index >= q.pages@.len() {
                            if q.pages@.len() == 0 { 0 } else { (q.pages@.len() - 1) as usize }
                        } else {
                            p.active_page_index
                        },
                        ..p
                    })
                    &&& *final(ui) == (Ui { pages: final(ui).pages, ..*old(ui) })
                }
            },
            (Value::String(_), _) => fails_with(r, "Second argument must be a page index (number)"@)
                && *final(ui) == *old(ui),
            _ => fails_with(r, "First argument must be a Pages ID (string)"@) && *final(ui) == *old(ui),
        },
{
    if args.len() != 2 {
        return Err(arity_error("removepage", "2 arguments", args.len()));
    }
    let id = match &args[0] {
        Value::String(id) => id,
        _ => return Err(text("First argument must be a Pages ID (string)")),
    };
    let idx = match &args[1] {
        Value::Number(n) => number_to_usize(*n),
        _ => return Err(text("Second argument must be a page index (number)")),
    };
    match ui.pages.find(id) {
        Some(i) => {
            if idx >= ui.pages.value_at(i).pages.len() {
                return Err(text("Page index out of bounds"));
            }
            let st = ui.pages.value_mut(i);
            st.pages.remove(idx);
            if st.active_page_index >= st.pages.len() {
                st.active_page_index = st.pages.len().saturating_sub(1);
            }
            Ok(Value::Null)
        },
        None => Err(text("Pages ID not found")),
    }
}

/// `settransition(pages, flag)`: switching fading off ends any fade at once.
pub fn settransition(ui: &mut Ui, args: Vec<Value>) -> (r: Result<Value, String>)
    ensures
        args.len() != 2 ==> fails_with(r, arity_message("settransition"@, "2 arguments (pages_id, enable)"@, args.len() as nat))
            && *final(ui) == *old(ui),
        args.len() == 2 ==> match (args@[0], args@[1]) {
            (Value::String(id), Value::Bool(on)) => if old(ui).pages@.contains_key(id@) {
                let p = old(ui).pages@[id@];
                &&& r == Ok::<Value, String>(Value::Null)
                &&& final(ui).pages@ == old(ui).pages@.insert(
                    id@,
                    if on {
                        PagesState { use_transition: true, ..p }
                    } else {
                        PagesState {
                            use_transition: false,
                            in_transition: false,
                            transition_alpha: ALPHA_OPAQUE,
                            transition_start_time: None,
                            ..p
                        }
                    },
                )
                &&& *final(ui) == (Ui { pages: final(ui).pages, ..*old(ui) })
            } else {
                fails_with(r, "Pages ID not found"@) && *final(ui) == *old(ui)
            },
            (Value::String(_), _) => fails_with(r, "Second argument must be a boolean"@) && *final(ui) == *old(ui),
            _ => fails_with(r, "First argument must be a Pages ID (string)"@) && *final(ui) == *old(ui),
        },
{
    if args.len() != 2 {
        return Err(arity_error("settransition", "2 arguments (pages_id, enable)", args.len()));
    }
    let id = match &args[0] {
        Value::String(id) => id,
        _ => return Err(text("First argument must be a Pages ID (string)")),
    };
    let on = match &args[1] {
        Value::Bool(b) => *b,
        _ => return Err(text("Second argument must be a boolean")),
    };
    match ui.pages.find(id) {
        Some(i) => {
            let st = ui.pages.value_mut(i);
            st.use_transition = on;
            if !on {
                st.in_transition = false;
                st.transition_alpha = ALPHA_OPAQUE;
                st.transition_start_time = None;
            }
            Ok(Value::Null)
        },
        None => Err(text("Pages ID not found")),
    }
}

// ----------------------------------------------------------- file dialog

/// `set_dialog_title(title)`.
pub fn set_dialog_title(ui: &mut Ui, args: Vec<Value>) -> (r: Result<Value, String>)
    ensures
        args.len() != 1 ==> fails_with(r, arity_message("set_dialog_title"@, "1 argument (title)"@, args.len() as nat))
            && *final(ui) == *old(ui),
        args.len() == 1 ==> match args@[0] {
            Value::String(s) => r == Ok::<Value, String>(Value::Null) && *final(ui) == (Ui {
                dialog_options: FileDialogOptions { title: Some(s), ..old(ui).dialog_options },
                ..*old(ui)
            }),
            _ => fails_with(r, expects("set_dialog_title"@, "a string"@)) && *final(ui) == *old(ui),
        },
{
    if args.len() != 1 {
        return Err(arity_error("set_dialog_title", "1 argument (title)", args.len()));
    }
    match take_one(args) {
        Value::String(s) => {
            ui.dialog_options.title = Some(s);
            Ok(Value::Null)
        },
        _ => Err(expects_error("set_dialog_title", "a string")),
    }
}

/// `set_dialog_multiselect(flag)`.
pub fn set_dialog_multiselect(ui: &mut Ui, args: Vec<Value>) -> (r: Result<Value, String>)
    ensures
        args.len() != 1 ==> fails_with(r, arity_message("set_dialog_multiselect"@, "1 argument (multiselect)"@, args.len() as nat))
            && *final(ui) == *old(ui),
        args.len() == 1 ==> match args@[0] {
            Value::Bool(b) => r == Ok::<Value, String>(Value::Null) && *final(ui) == (Ui {
                dialog_options: FileDialogOptions { multiselect: b, ..old(ui).dialog_options },
                ..*old(ui)
            }),
            _ => fails_with(r, expects("set_dialog_multiselect"@, "a boolean"@)) && *final(ui) == *old(ui),
        },
{
    if args.len() != 1 {
        return Err(arity_error("set_dialog_multiselect", "1 argument (multiselect)", args.len()));
    }
    match &args[0] {
        Value::Bool(b) => {
            ui.dialog_options.multiselect = *b;
            Ok(Value::Null)
        },
        _ => Err(expects_error("set_dialog_multiselect", "a boolean")),
    }
}

/// `set_dialog_startingpath(path)`.
pub fn set_dialog_startingpath(ui: &mut Ui, args: Vec<Value>) -> (r: Result<Value, String>)
    ensures
        args.len() != 1 ==> fails_with(r, arity_message("set_dialog_startingpath"@, "1 argument (path)"@, args.len() as nat))
            && *final(ui) == *old(ui),
        args.len() == 1 ==> match args@[0] {
            Value::String(s) => r == Ok::<Value, String>(Value::Null) && *final(ui) == (Ui {
                dialog_options: FileDialogOptions { startingpath: Some(s), ..old(ui).dialog_options },
                ..*old(ui)
            }),
            _ => fails_with(r, expects("set_dialog_startingpath"@, "a string"@)) && *final(ui) == *old(ui),
        },
{
    if args.len() != 1 {
        return Err(arity_error("set_dialog_startingpath", "1 argument (path)", args.len()));
    }
    match take_one(args) {
        Value::String(s) => {
            ui.dialog_options.startingpath = Some(s);
            Ok(Value::Null)
        },
        _ => Err(expects_error("set_dialog_startingpath", "a string")),
    }
}

/// A text that may be missing, as a value: the text, or null.
pub open spec fn optional_text_value(t: Option<String>) -> Value {
    match t {
        Some(s) => Value::String(s),
        None => Value::Null,
    }
}

/// `get_dialog_title()`: the title, or null.
pub fn get_dialog_title(ui: &Ui, args: Vec<Value>) -> (r: Result<Value, String>)
    ensures
        args.len() != 0 ==> fails_with(r, arity_message("get_dialog_title"@, "0 arguments"@, args.len() as nat)),
        args.len() == 0 ==> r == Ok::<Value, String>(optional_text_value(ui.dialog_options.title)),
{
    if args.len() != 0 {
        return Err(arity_error("get_dialog_title", "0 arguments", args.len()));
    }
    match &ui.dialog_options.title {
        Some(t) => Ok(Value::String(t.clone())),
        None => Ok(Value::Null),
    }
}

/// `get_dialog_multiselect()`.
pub fn get_dialog_multiselect(ui: &Ui, args: Vec<Value>) -> (r: Result<Value, String>)
    ensures
        args.len() != 0 ==> fails_with(r, arity_message("get_dialog_multiselect"@, "0 arguments"@, args.len() as nat)),
        args.len() == 0 ==> r == Ok::<Value, String>(Value::Bool(ui.dialog_options.multiselect)),
{
    if args.len() != 0 {
        return Err(arity_error("get_dialog_multiselect", "0 arguments", args.len()));
    }
    Ok(Value::Bool(ui.dialog_options.multiselect))
}

/// `get_dialog_startingpath()`: the starting path, or null.
pub fn get_dialog_startingpath(ui: &Ui, args: Vec<Value>) -> (r: Result<Value, String>)
    ensures
        args.len() != 0 ==> fails_with(r, arity_message("get_dialog_startingpath"@, "0 arguments"@, args.len() as nat)),
        args.len() == 0 ==> r == Ok::<Value, String>(optional_text_value(ui.dialog_options.startingpath)),
{
    if args.len() != 0 {
        return Err(arity_error("get_dialog_startingpath", "0 arguments", args.len()));
    }
    match &ui.dialog_options.startingpath {
        Some(t) => Ok(Value::String(t.clone())),
        None => Ok(Value::Null),
    }
}

/// `v` is the array of the texts `es`.
pub open spec fn texts_value(es: Seq<String>, v: Value) -> bool {
    &&& v matches Value::Array(items)
    &&& items@.len() == es.len()
    &&& forall|j: int| 0 <= j < es.len() ==> items@[j] == Value::String(#[trigger] es[j])
}

/// `v` is the pair `[name, [extensions]]` of a filter.
pub open spec fn filter_value(f: (String, Vec<String>), v: Value) -> bool {
    &&& v matches Value::Array(p)
    &&& p@.len() == 2
    &&& p@[0] == Value::String(f.0)
    &&& texts_value(f.1@, p@[1])
}

/// `v` is the array of the pairs of the filters `fs`.
pub open spec fn filters_value(fs: Seq<(String, Vec<String>)>, v: Value) -> bool {
    &&& v matches Value::Array(items)
    &&& items@.len() == fs.len()
    &&& forall|i: int| 0 <= i < fs.len() ==> filter_value(#[trigger] fs[i], items@[i])
}

/// The array of some texts.
fn texts_array(es: &Vec<String>) -> (v: Value)
    ensures
        texts_value(es@, v),
{
    let mut items: Vec<Value> = Vec::new();
    let mut j: usize = 0;
    while j < es.len()
        invariant
            j <= es@.len(),
            items@.len() == j,
            forall|m: int| 0 <= m < j ==> items@[m] == Value::String(#[trigger] es@[m]),
        decreases es@.len() - j,
    {
        items.push(Value::String(es[j].clone()));
        j = j + 1;
    }
    Value::Array(items)
}

/// `get_dialog_filters()`: the filters as `[name, [extensions]]` pairs, or null.
pub fn get_dialog_filters(ui: &Ui, args: Vec<Value>) -> (r: Result<Value, String>)
    ensures
        args.len() != 0 ==> fails_with(r, arity_message("get_dialog_filters"@, "0 arguments"@, args.len() as nat)),
        args.len() == 0 ==> match ui.dialog_options.filters {
            Some(fs) => r matches Ok(v) && filters_value(fs@, v),
            None => r == Ok::<Value, String>(Value::Null),
        },
{
    if args.len() != 0 {
        return Err(arity_error("get_dialog_filters", "0 arguments", args.len()));
    }
    match &ui.dialog_options.filters {
        Some(fs) => {
            let mut items: Vec<Value> = Vec::new();
            let mut i: usize = 0;
            while i < fs.len()
                invariant
                    i <= fs@.len(),
                    items@.len() == i,
                    forall|m: int| 0 <= m < i ==> filter_value(#[trigger] fs@[m], items@[m]),
                decreases fs@.len() - i,
            {
                let f = &fs[i];
                let mut pair: Vec<Value> = Vec::new();
                pair.push(Value::String(f.0.clone()));
                pair.push(texts_array(&f.1));
                items.push(Value::Array(pair));
                i = i + 1;
            }
            Ok(Value::Array(items))
        },
        None => Ok(Value::Null),
    }
}

/// `get_dialog_result(dialog)`: the path chosen, null when the dialog was
/// cancelled, or `"result_pending_<dialog>"` while it is open.
pub fn get_dialog_result(ui: &Ui, args: Vec<Value>) -> (r: Result<Value, String>)
    ensures
        match id_call_error(args@, 1, "get_dialog_result"@, "1 argument (dialog_id)"@, "a dialog identifier"@) {
            Some(m) => fails_with(r, m),
            None => {
                let id = id_arg(args@);
                if ui.dialog_results@.contains_key(id) {
                    r == Ok::<Value, String>(optional_text_value(ui.dialog_results@[id]))
                } else {
                    r matches Ok(Value::String(s)) && s@ == "result_pending_"@ + id
                }
            },
        },
{
    if args.len() != 1 {
        return Err(arity_error("get_dialog_result", "1 argument (dialog_id)", args.len()));
    }
    let id = match &args[0] {
        Value::String(id) => id,
        _ => return Err(expects_error("get_dialog_result", "a dialog identifier")),
    };
    match ui.dialog_results.get(id) {
        Some(Some(path)) => Ok(Value::String(path.clone())),
        Some(None) => Ok(Value::Null),
        None => {
            let mut s = text("result_pending_");
            s.append(id.as_str());
            Ok(Value::String(s))
        },
    }
}

// ----------------------------------------------------------- grid layouts

/// `n` empty cells.
pub open spec fn empty_cells(n: nat) -> Seq<Option<String>> {
    Seq::new(n, |i: int| None::<String>)
}

/// A row of cells made `n` long: cut, or filled up with empty cells.
pub open spec fn fit_row(row: Seq<Option<String>>, n: nat) -> Seq<Option<String>> {
    if n <= row.len() {
        row.take(n as int)
    } else {
        row + empty_cells((n - row.len()) as nat)
    }
}

/// A row of `n` empty cells.
fn empty_row(n: usize) -> (row: Vec<Option<String>>)
    ensures
        row@ == empty_cells(n as nat),
{
    let mut row: Vec<Option<String>> = Vec::new();
    let mut j: usize = 0;
    while j < n
        invariant
            j <= n,
            row@ == empty_cells(j as nat),
        decreases n - j,
    {
        row.push(None);
        j = j + 1;
        proof {
            assert(row@ =~= empty_cells(j as nat));
        }
    }
    row
}

/// Makes a row of cells `n` long.
fn fit_row_to(row: &mut Vec<Option<String>>, n: usize)
    ensures
        final(row)@ == fit_row(old(row)@, n as nat),
{
    if n <= row.len() {
        row.truncate(n);
        proof {
            assert(row@ =~= fit_row(old(row)@, n as nat));
        }
    } else {
        let ghost start = row@;
        let k = row.len();
        let mut j: usize = k;
        while j < n
            invariant
                k == start.len(),
                k <= j <= n,
                row@ == start + empty_cells((j - k) as nat),
            decreases n - j,
        {
            row.push(None);
            j = j + 1;
            proof {
                assert(row@ =~= start + empty_cells((j - k) as nat));
            }
        }
    }
}

/// The arguments of a call on one grid layout with `n` arguments: the error
/// that they give, if any.
pub open spec fn grid_call_error(args: Seq<Value>, n: nat, arity: Seq<char>) -> Option<Seq<char>> {
    if args.len() != n {
        Some(arity)
    } else if !(args[0] is String) {
        Some(if n == 1 { "Argument must be a layout identifier"@ } else { "First argument must be a layout identifier"@ })
    } else {
        None
    }
}

/// `setgridlayoutshowlines(layout, flag)`.
pub fn setgridlayoutshowlines(ui: &mut Ui, args: Vec<Value>) -> (r: Result<Value, String>)
    ensures
        match grid_call_error(args@, 2, "setgridlayoutshowlines() expects 2 arguments (layout_id, show)"@) {
            Some(m) => fails_with(r, m) && *final(ui) == *old(ui),
            None => match args@[1] {
                Value::Bool(b) => {
                    let id = id_arg(args@);
                    if old(ui).grids@.contains_key(id) {
                        &&& r == Ok::<Value, String>(Value::Null)
                        &&& final(ui).grids@ == old(ui).grids@.insert(
                            id,
                            GridLayoutState { show_grid_lines: b, ..old(ui).grids@[id] },
                        )
                        &&& *final(ui) == (Ui { grids: final(ui).grids, ..*old(ui) })
                    } else {
                        fails_with(r, "GridLayout not found"@) && *final(ui) == *old(ui)
                    }
                },
                _ => fails_with(r, "Second argument must be a boolean"@) && *final(ui) == *old(ui),
            },
        },
{
    if args.len() != 2 {
        return Err(text("setgridlayoutshowlines() expects 2 arguments (layout_id, show)"));
    }
    let id = match &args[0] {
        Value::String(id) => id,
        _ => return Err(text("First argument must be a layout identifier")),
    };
    let b = match &args[1] {
        Value::Bool(b) => *b,
        _ => return Err(text("Second argument must be a boolean")),
    };
    match ui.grids.find(id) {
        Some(i) => {
            let g = ui.grids.value_mut(i);
            g.show_grid_lines = b;
            Ok(Value::Null)
        },
        None => Err(text("GridLayout not found")),
    }
}

/// `getgridlayoutshowlines(layout)`.
pub fn getgridlayoutshowlines(ui: &Ui, args: Vec<Value>) -> (r: Result<Value, String>)
    ensures
        match grid_call_error(args@, 1, "getgridlayoutshowlines() expects 1 argument (layout_id)"@) {
            Some(m) => fails_with(r, m),
            None => if ui.grids@.contains_key(id_arg(args@)) {
                r == Ok::<Value, String>(Value::Bool(ui.grids@[id_arg(args@)].show_grid_lines))
            } else {
                fails_with(r, "GridLayout not found"@)
            },
        },
{
    if args.len() != 1 {
        return Err(text("getgridlayoutshowlines() expects 1 argument (layout_id)"));
    }
    let id = match &args[0] {
        Value::String(id) => id,
        _ => return Err(text("Argument must be a layout identifier")),
    };
    match ui.grids.get(id) {
        Some(g) => Ok(Value::Bool(g.show_grid_lines)),
        None => Err(text("GridLayout not found")),
    }
}

/// The cells of a grid given `rows` rows: rows cut off at the end, or new rows
/// of `cols` empty cells added.
pub open spec fn rows_resized(
    before: Seq<Vec<Option<String>>>,
    after: Seq<Vec<Option<String>>>,
    rows: nat,
    cols: nat,
) -> bool {
    &&& after.len() == rows
    &&& forall|i: int| 0 <= i < rows && i < before.len() ==> #[trigger] after[i] == before[i]
    &&& forall|i: int| before.len() <= i < rows ==> (#[trigger] after[i])@ == empty_cells(cols)
}

/// What `setgridlayoutrows` does.
pub open spec fn rows_set(before: Ui, after: Ui, args: Seq<Value>, r: Result<Value, String>) -> bool {
    match grid_call_error(args, 2, "setgridlayoutrows() expects 2 arguments (layout_id, rows)"@) {
        Some(m) => fails_with(r, m) && after == before,
        None => match args[1] {
            Value::Number(n) => {
                let id = id_arg(args);
                let rows = saturating_usize(n);
                if rows < 1 {
                    fails_with(r, "Rows must be at least 1"@) && after == before
                } else if before.grids@.contains_key(id) {
                    let g = before.grids@[id];
                    let h = after.grids@[id];
                    &&& r == Ok::<Value, String>(Value::Null)
                    &&& after.grids@ == before.grids@.insert(id, h)
                    &&& h == (GridLayoutState { rows: rows as usize, cell_controls: h.cell_controls, ..g })
                    &&& rows_resized(g.cell_controls@, h.cell_controls@, rows, g.cols as nat)
                    &&& after == (Ui { grids: after.grids, ..before })
                } else {
                    fails_with(r, "GridLayout not found"@) && after == before
                }
            },
            _ => fails_with(r, "Second argument must be a number (rows)"@) && after == before,
        },
    }
}

/// `setgridlayoutrows(layout, rows)`: at least one row.
pub fn setgridlayoutrows(ui: &mut Ui, args: Vec<Value>) -> (r: Result<Value, String>)
    ensures
        rows_set(*old(ui), *final(ui), args@, r),
{
    if args.len() != 2 {
        return Err(text("setgridlayoutrows() expects 2 arguments (layout_id, rows)"));
    }
    let id = match &args[0] {
        Value::String(id) => id,
        _ => return Err(text("First argument must be a layout identifier")),
    };
    let rows = match &args[1] {
        Value::Number(n) => {
            let r = number_to_usize(*n);
            if r < 1 {
                return Err(text("Rows must be at least 1"));
            }
            r
        },
        _ => return Err(text("Second argument must be a number (rows)")),
    };
    match ui.grids.find(id) {
        Some(i) => {
            let g = ui.grids.value_mut(i);
            let cols = g.cols;
            let ghost start = g.cell_controls@;
            let ghost g0 = *g;
            if rows > g.cell_controls.len() {
                let mut k = g.cell_controls.len();
                while k < rows
                    invariant
                        start.len() <= k <= rows,
                        g.cell_controls@.len() == k,
                        g.cols == cols,
                        *g == (GridLayoutState { cell_controls: g.cell_controls, ..g0 }),
                        forall|m: int| 0 <= m < start.len() ==> #[trigger] g.cell_controls@[m] == start[m],
                        forall|m: int| start.len() <= m < k ==> (#[trigger] g.cell_controls@[m])@ == empty_cells(cols as nat),
                    decreases rows - k,
                {
                    g.cell_controls.push(empty_row(cols));
                    k = k + 1;
                }
            } else {
                g.cell_controls.truncate(rows);
            }
            g.rows = rows;
            Ok(Value::Null)
        },
        None => Err(text("GridLayout not found")),
    }
}

/// What `getgridlayoutrows` gives.
pub open spec fn rows_read(ui: Ui, args: Seq<Value>, r: Result<Value, String>) -> bool {
    match grid_call_error(args, 1, "getgridlayoutrows() expects 1 argument (layout_id)"@) {
        Some(m) => fails_with(r, m),
        None => if ui.grids@.contains_key(id_arg(args)) {
            r matches Ok(Value::Number(v)) && holds_integer(
                v,
                nearest_representable(ui.grids@[id_arg(args)].rows as nat),
                false,
            )
        } else {
            fails_with(r, "GridLayout not found"@)
        },
    }
}

/// `getgridlayoutrows(layout)`.
pub fn getgridlayoutrows(ui: &Ui, args: Vec<Value>) -> (r: Result<Value, String>)
    ensures
        rows_read(*ui, args@, r),
{
    if args.len() != 1 {
        return Err(text("getgridlayoutrows() expects 1 argument (layout_id)"));
    }
    let id = match &args[0] {
        Value::String(id) => id,
        _ => return Err(text("Argument must be a layout identifier")),
    };
    match ui.grids.get(id) {
        Some(g) => Ok(Value::Number(number_from_usize(g.rows))),
        None => Err(text("GridLayout not found")),
    }
}

/// What `setgridlayoutcolumns` does.
pub open spec fn columns_set(before: Ui, after: Ui, args: Seq<Value>, r: Result<Value, String>) -> bool {
    match grid_call_error(args, 2, "setgridlayoutcolumns() expects 2 arguments (layout_id, columns)"@) {
        Some(m) => fails_with(r, m) && after == before,
        None => match args[1] {
            Value::Number(n) => {
                let id = id_arg(args);
                let cols = saturating_usize(n);
                if cols < 1 {
                    fails_with(r, "Columns must be at least 1"@) && after == before
                } else if before.grids@.contains_key(id) {
                    let g = before.grids@[id];
                    let h = after.grids@[id];
                    &&& r == Ok::<Value, String>(Value::Null)
                    &&& after.grids@ == before.grids@.insert(id, h)
                    &&& h == (GridLayoutState { cols: cols as usize, cell_controls: h.cell_controls, ..g })
                    &&& h.cell_controls@.len() == g.cell_controls@.len()
                    &&& forall|i: int| 0 <= i < g.cell_controls@.len() ==>
                        (#[trigger] h.cell_controls@[i])@ == fit_row(g.cell_controls@[i]@, cols)
                    &&& after == (Ui { grids: after.grids, ..before })
                } else {
                    fails_with(r, "GridLayout not found"@) && after == before
                }
            },
            _ => fails_with(r, "Second argument must be a number (columns)"@) && after == before,
        },
    }
}

/// `setgridlayoutcolumns(layout, columns)`: at least one column; every row is
/// cut or filled up with empty cells.
pub fn setgridlayoutcolumns(ui: &mut Ui, args: Vec<Value>) -> (r: Result<Value, String>)
    ensures
        columns_set(*old(ui), *final(ui), args@, r),
{
    if args.len() != 2 {
        return Err(text("setgridlayoutcolumns() expects 2 arguments (layout_id, columns)"));
    }
    let id = match &args[0] {
        Value::String(id) => id,
        _ => return Err(text("First argument must be a layout identifier")),
    };
    let cols = match &args[1] {
        Value::Number(n) => {
            let c = number_to_usize(*n);
            if c < 1 {
                return Err(text("Columns must be at least 1"));
            }
            c
        },
        _ => return Err(text("Second argument must be a number (columns)")),
    };
    match ui.grids.find(id) {
        Some(i) => {
            let g = ui.grids.value_mut(i);
            let ghost start = g.cell_controls@;
            let ghost g0 = *g;
            let n = g.cell_controls.len();
            let mut k: usize = 0;
            while k < n
                invariant
                    n == start.len(),
                    k <= n,
                    g.cell_controls@.len() == n,
                    *g == (GridLayoutState { cell_controls: g.cell_controls, ..g0 }),
                    forall|m: int| 0 <= m < k ==> (#[trigger] g.cell_controls@[m])@ == fit_row(start[m]@, cols as nat),
                    forall|m: int| k <= m < n ==> #[trigger] g.cell_controls@[m] == start[m],
                decreases n - k,
            {
                fit_row_to(&mut g.cell_controls[k], cols);
                k = k + 1;
            }
            g.cols = cols;
            Ok(Value::Null)
        },
        None => Err(text("GridLayout not found")),
    }
}

/// What `getgridlayoutcolumns` gives.
pub open spec fn columns_read(ui: Ui, args: Seq<Value>, r: Result<Value, String>) -> bool {
    match grid_call_error(args, 1, "getgridlayoutcolumns() expects 1 argument (layout_id)"@) {
        Some(m) => fails_with(r, m),
        None => if ui.grids@.contains_key(id_arg(args)) {
            r matches Ok(Value::Number(v)) && holds_integer(
                v,
                nearest_representable(ui.grids@[id_arg(args)].cols as nat),
                false,
            )
        } else {
            fails_with(r, "GridLayout not found"@)
        },
    }
}

/// `getgridlayoutcolumns(layout)`.
pub fn getgridlayoutcolumns(ui: &Ui, args: Vec<Value>) -> (r: Result<Value, String>)
    ensures
        columns_read(*ui, args@, r),
{
    if args.len() != 1 {
        return Err(text("getgridlayoutcolumns() expects 1 argument (layout_id)"));
    }
    let id = match &args[0] {
        Value::String(id) => id,
        _ => return Err(text("Argument must be a layout identifier")),
    };
    match ui.grids.get(id) {
        Some(g) => Ok(Value::Number(number_from_usize(g.cols))),
        None => Err(text("GridLayout not found")),
    }
}

/// The grid layout that a one-argument call names, when there is one.
pub open spec fn named_grid(ui: Ui, args: Seq<Value>) -> Option<GridLayoutState> {
    if args.len() == 1 && args[0] is String && ui.grids@.contains_key(id_arg(args)) {
        Some(ui.grids@[id_arg(args)])
    } else {
        None
    }
}

/// What `addgridlayoutrow` does.
pub open spec fn row_added(before: Ui, after: Ui, args: Seq<Value>, r: Result<Value, String>) -> bool {
    match grid_call_error(args, 1, "addgridlayoutrow() expects 1 argument (layout_id)"@) {
        Some(m) => fails_with(r, m) && after == before,
        None => {
            let id = id_arg(args);
            if before.grids@.contains_key(id) {
                let g = before.grids@[id];
                let h = after.grids@[id];
                &&& r == Ok::<Value, String>(Value::Null)
                &&& after.grids@ == before.grids@.insert(id, h)
                &&& h == (GridLayoutState { rows: (g.rows + 1) as usize, cell_controls: h.cell_controls, ..g })
                &&& h.cell_controls@.len() == g.cell_controls@.len() + 1
                &&& h.cell_controls@.drop_last() == g.cell_controls@
                &&& h.cell_controls@.last()@ == empty_cells(g.cols as nat)
                &&& after == (Ui { grids: after.grids, ..before })
            } else {
                fails_with(r, "GridLayout not found"@) && after == before
            }
        },
    }
}

/// `addgridlayoutrow(layout)`: a row of empty cells goes last.
pub fn addgridlayoutrow(ui: &mut Ui, args: Vec<Value>) -> (r: Result<Value, String>)
    requires
        named_grid(*old(ui), args@) matches Some(g) ==> g.rows < usize::MAX,
    ensures
        row_added(*old(ui), *final(ui), args@, r),
{
    if args.len() != 1 {
        return Err(text("addgridlayoutrow() expects 1 argument (layout_id)"));
    }
    let id = match &args[0] {
        Value::String(id) => id,
        _ => return Err(text("Argument must be a layout identifier")),
    };
    match ui.grids.find(id) {
        Some(i) => {
            let g = ui.grids.value_mut(i);
            let ghost start = g.cell_controls@;
            let row = empty_row(g.cols);
            g.cell_controls.push(row);
            g.rows = g.rows + 1;
            proof {
                assert(g.cell_controls@.drop_last() =~= start);
            }
            Ok(Value::Null)
        },
        None => Err(text("GridLayout not found")),
    }
}

/// What `addgridlayoutcolumn` does.
pub open spec fn column_added(before: Ui, after: Ui, args: Seq<Value>, r: Result<Value, String>) -> bool {
    match grid_call_error(args, 1, "addgridlayoutcolumn() expects 1 argument (layout_id)"@) {
        Some(m) => fails_with(r, m) && after == before,
        None => {
            let id = id_arg(args);
            if before.grids@.contains_key(id) {
                let g = before.grids@[id];
                let h = after.grids@[id];
                &&& r == Ok::<Value, String>(Value::Null)
                &&& after.grids@ == before.grids@.insert(id, h)
                &&& h == (GridLayoutState { cols: (g.cols + 1) as usize, cell_controls: h.cell_controls, ..g })
                &&& h.cell_controls@.len() == g.cell_controls@.len()
                &&& forall|i: int| 0 <= i < g.cell_controls@.len() ==>
                    (#[trigger] h.cell_controls@[i])@ == g.cell_controls@[i]@.push(None)
                &&& after == (Ui { grids: after.grids, ..before })
            } else {
                fails_with(r, "GridLayout not found"@) && after == before
            }
        },
    }
}

/// `addgridlayoutcolumn(layout)`: every row gets an empty cell at its end.
pub fn addgridlayoutcolumn(ui: &mut Ui, args: Vec<Value>) -> (r: Result<Value, String>)
    requires
        named_grid(*old(ui), args@) matches Some(g) ==> g.cols < usize::MAX,
    ensures
        column_added(*old(ui), *final(ui), args@, r),
{
    if args.len() != 1 {
        return Err(text("addgridlayoutcolumn() expects 1 argument (layout_id)"));
    }
    let id = match &args[0] {
        Value::String(id) => id,
        _ => return Err(text("Argument must be a layout identifier")),
    };
    match ui.grids.find(id) {
        Some(i) => {
            let g = ui.grids.value_mut(i);
            let ghost start = g.cell_controls@;
            let ghost g0 = *g;
            let n = g.cell_controls.len();
            let mut k: usize = 0;
            while k < n
                invariant
                    n == start.len(),
                    k <= n,
                    g.cell_controls@.len() == n,
                    *g == (GridLayoutState { cell_controls: g.cell_controls, ..g0 }),
                    forall|m: int| 0 <= m < k ==> (#[trigger] g.cell_controls@[m])@ == start[m]@.push(None),
                    forall|m: int| k <= m < n ==> #[trigger] g.cell_controls@[m] == start[m],
                decreases n - k,
            {
                g.cell_controls[k].push(None);
                k = k + 1;
            }
            g.cols = g.cols + 1;
            Ok(Value::Null)
        },
        None => Err(text("GridLayout not found")),
    }
}

// -------------------------------------------------------------- drawings

/// What a one-argument call on a turtle does: the error of its arguments,
/// "Turtle state not found", or `Ok(Null)` with the turtle changed by `set`.
pub open spec fn turtle_effect(
    before: Ui,
    after: Ui,
    args: Seq<Value>,
    arity: Seq<char>,
    r: Result<Value, String>,
    set: spec_fn(DrawyState) -> DrawyState,
) -> bool {
    if args.len() != 1 {
        fails_with(r, arity) && after == before
    } else {
        match args[0] {
            Value::String(id) => if before.drawings@.contains_key(id@) {
                &&& r == Ok::<Value, String>(Value::Null)
                &&& after.drawings@ == before.drawings@.insert(id@, set(before.drawings@[id@]))
                &&& after == (Ui { drawings: after.drawings, ..before })
            } else {
                fails_with(r, "Turtle state not found"@) && after == before
            },
            _ => fails_with(r, "Argument must be a shape identifier"@) && after == before,
        }
    }
}

/// `drawy_penup(shape)`: moves stop drawing.
pub fn drawy_penup(ui: &mut Ui, args: Vec<Value>) -> (r: Result<Value, String>)
    ensures
        turtle_effect(*old(ui), *final(ui), args@, "turtle_penup() expects 1 argument (shape_id)"@, r,
            |d: DrawyState| DrawyState { pen_down: false, ..d }),
{
    if args.len() != 1 {
        return Err(text("turtle_penup() expects 1 argument (shape_id)"));
    }
    let id = match &args[0] {
        Value::String(id) => id,
        _ => return Err(text("Argument must be a shape identifier")),
    };
    match ui.drawings.find(id) {
        Some(i) => {
            let d = ui.drawings.value_mut(i);
            d.pen_down = false;
            Ok(Value::Null)
        },
        None => Err(text("Turtle state not found")),
    }
}

/// `drawy_pendown(shape)`: moves draw again.
pub fn drawy_pendown(ui: &mut Ui, args: Vec<Value>) -> (r: Result<Value, String>)
    ensures
        turtle_effect(*old(ui), *final(ui), args@, "turtle_pendown() expects 1 argument (shape_id)"@, r,
            |d: DrawyState| DrawyState { pen_down: true, ..d }),
{
    if args.len() != 1 {
        return Err(text("turtle_pendown() expects 1 argument (shape_id)"));
    }
    let id = match &args[0] {
        Value::String(id) => id,
        _ => return Err(text("Argument must be a shape identifier")),
    };
    match ui.drawings.find(id) {
        Some(i) => {
            let d = ui.drawings.value_mut(i);
            d.pen_down = true;
            Ok(Value::Null)
        },
        None => Err(text("Turtle state not found")),
    }
}

/// `drawy_begin_fill(shape)`: a new shape to fill starts where the turtle is.
pub fn drawy_begin_fill(ui: &mut Ui, args: Vec<Value>) -> (r: Result<Value, String>)
    ensures
        args.len() == 1 && args@[0] is String && old(ui).drawings@.contains_key(id_arg(args@)) ==>
            final(ui).drawings@[id_arg(args@)].fill_path@ == seq![old(ui).drawings@[id_arg(args@)].position],
        turtle_effect(*old(ui), *final(ui), args@, "turtle_begin_fill() expects 1 argument (shape_id)"@, r,
            |d: DrawyState| DrawyState { filling: true, fill_path: final(ui).drawings@[id_arg(args@)].fill_path, ..d }),
{
    if args.len() != 1 {
        return Err(text("turtle_begin_fill() expects 1 argument (shape_id)"));
    }
    let id = match &args[0] {
        Value::String(id) => id,
        _ => return Err(text("Argument must be a shape identifier")),
    };
    match ui.drawings.find(id) {
        Some(i) => {
            let d = ui.drawings.value_mut(i);
            d.filling = true;
            d.fill_path.clear();
            d.fill_path.push(d.position);
            proof {
                assert(d.fill_path@ =~= seq![d.position]);
            }
            Ok(Value::Null)
        },
        None => Err(text("Turtle state not found")),
    }
}

/// `drawy_end_fill(shape)`.
pub fn drawy_end_fill(ui: &mut Ui, args: Vec<Value>) -> (r: Result<Value, String>)
    ensures
        turtle_effect(*old(ui), *final(ui), args@, "turtle_end_fill() expects 1 argument (shape_id)"@, r,
            |d: DrawyState| DrawyState { filling: false, ..d }),
{
    if args.len() != 1 {
        return Err(text("turtle_end_fill() expects 1 argument (shape_id)"));
    }
    let id = match &args[0] {
        Value::String(id) => id,
        _ => return Err(text("Argument must be a shape identifier")),
    };
    match ui.drawings.find(id) {
        Some(i) => {
            let d = ui.drawings.value_mut(i);
            d.filling = false;
            Ok(Value::Null)
        },
        None => Err(text("Turtle state not found")),
    }
}

} // verus!
