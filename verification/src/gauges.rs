//! Scroll bars, progress bars, sliders, number boxes and pictures: the values
//! they hold, kept within their bounds.

use vstd::prelude::*;
use crate::color::{parse_color, parsed_color};
use crate::single::{
    is_nan32, narrowed, number_to_single, single_clamp, single_less, single_max, single_max_of, single_min,
    single_min_of, single_to_number, widened,
};
use crate::text::{arity_error, arity_message, fails_with, same_text, text};
use crate::ui::{
    color_string, color_text, expects, expects_error, lowercase, lowercase_text, BarStyle, Color, ImageButtonState,
    PictureBoxState, ProgressBarState, ScrollBarState, SizeMode, Ui,
};
use crate::value::{take_two, Value};
use crate::number::{is_nan, num_less, number_is_nan, number_order, NumOrder};
use crate::ui::{NumberBoxState, SliderState};
use crate::widgets::id_arg;

verus! {

/// The `f32` bit pattern of 0.0.
pub const SINGLE_ZERO: u32 = 0;

/// `x` kept between `lo` and `hi`, as `f32::clamp` keeps it.
pub open spec fn clamped(x: u32, lo: u32, hi: u32) -> u32 {
    if single_less(x, lo) {
        lo
    } else if single_less(hi, x) {
        hi
    } else {
        x
    }
}

/// Bounds that `f32::clamp` accepts: neither NaN, the lower not above the upper.
pub open spec fn bounds_ok(lo: u32, hi: u32) -> bool {
    !is_nan32(lo) && !is_nan32(hi) && !single_less(hi, lo)
}

/// Which value of a scroll bar a call sets or reads.
#[derive(Clone, Copy, Debug, PartialEq, Eq, Structural)]
pub enum ScrollField {
    Value,
    Min,
    Max,
    LargeChange,
    SmallChange,
}

/// The value of a scroll bar that a field names.
pub open spec fn scroll_field(s: ScrollBarState, f: ScrollField) -> u32 {
    match f {
        ScrollField::Value => s.value,
        ScrollField::Min => s.min,
        ScrollField::Max => s.max,
        ScrollField::LargeChange => s.large_change,
        ScrollField::SmallChange => s.small_change,
    }
}

/// A scroll bar after setting `f` to the single `x`: the value is kept within
/// the bounds, new bounds pull the value in, and the steps are not negative.
pub open spec fn scroll_set(s: ScrollBarState, f: ScrollField, x: u32, t: ScrollBarState) -> bool {
    match f {
        ScrollField::Value => t == (ScrollBarState { value: clamped(x, s.min, s.max), ..s }),
        ScrollField::Min => t == (ScrollBarState { min: x, value: t.value, ..s }) && single_max_of(s.value, x, t.value),
        ScrollField::Max => t == (ScrollBarState { max: x, value: t.value, ..s }) && single_min_of(s.value, x, t.value),
        ScrollField::LargeChange => t == (ScrollBarState { large_change: t.large_change, ..s })
            && single_max_of(x, SINGLE_ZERO, t.large_change),
        ScrollField::SmallChange => t == (ScrollBarState { small_change: t.small_change, ..s })
            && single_max_of(x, SINGLE_ZERO, t.small_change),
    }
}

/// The scroll bar that a call with a text first argument names, if any.
pub open spec fn named_scrollbar(ui: Ui, args: Seq<Value>) -> Option<ScrollBarState> {
    if args.len() >= 1 && args[0] is String && ui.scrollbars@.contains_key(id_arg(args)) {
        Some(ui.scrollbars@[id_arg(args)])
    } else {
        None
    }
}

/// The result and effect of a call that sets a value of a scroll bar.
pub open spec fn scroll_set_effect(
    before: Ui,
    after: Ui,
    args: Seq<Value>,
    name: Seq<char>,
    f: ScrollField,
    r: Result<Value, String>,
) -> bool {
    if args.len() != 2 {
        fails_with(r, arity_message(name, "2 arguments"@, args.len())) && after == before
    } else {
        match (args[0], args[1]) {
            (Value::String(id), Value::Number(n)) => if before.scrollbars@.contains_key(id@) {
                &&& r == Ok::<Value, String>(Value::Null)
                &&& after.scrollbars@ == before.scrollbars@.insert(id@, after.scrollbars@[id@])
                &&& scroll_set(before.scrollbars@[id@], f, narrowed(n), after.scrollbars@[id@])
                &&& after == (Ui { scrollbars: after.scrollbars, ..before })
            } else {
                fails_with(r, "ScrollBar not found"@) && after == before
            },
            (Value::String(_), _) => fails_with(r, expects(name, "a number"@)) && after == before,
            _ => fails_with(r, expects(name, "a control identifier"@)) && after == before,
        }
    }
}

fn set_scroll(ui: &mut Ui, args: Vec<Value>, name: &str, f: ScrollField) -> (r: Result<Value, String>)
    requires
        f == ScrollField::Value ==> (named_scrollbar(*old(ui), args@) matches Some(s) ==> bounds_ok(s.min, s.max)),
    ensures
        scroll_set_effect(*old(ui), *final(ui), args@, name@, f, r),
{
    if args.len() != 2 {
        return Err(arity_error(name, "2 arguments", args.len()));
    }
    let id = match &args[0] {
        Value::String(id) => id,
        _ => return Err(expects_error(name, "a control identifier")),
    };
    let x = match &args[1] {
        Value::Number(n) => number_to_single(*n),
        _ => return Err(expects_error(name, "a number")),
    };
    match ui.scrollbars.find(id) {
        Some(i) => {
            let s = ui.scrollbars.value_mut(i);
            match f {
                ScrollField::Value => s.value = single_clamp(x, s.min, s.max),
                ScrollField::Min => {
                    s.min = x;
                    s.value = single_max(s.value, x);
                },
                ScrollField::Max => {
                    s.max = x;
                    s.value = single_min(s.value, x);
                },
                ScrollField::LargeChange => s.large_change = single_max(x, SINGLE_ZERO),
                ScrollField::SmallChange => s.small_change = single_max(x, SINGLE_ZERO),
            }
            Ok(Value::Null)
        },
        None => Err(text("ScrollBar not found")),
    }
}

/// What a call that reads a value of a scroll bar gives.
pub open spec fn scroll_read(ui: Ui, args: Seq<Value>, name: Seq<char>, f: ScrollField, r: Result<Value, String>) -> bool {
    if args.len() != 1 {
        fails_with(r, arity_message(name, "1 argument"@, args.len()))
    } else {
        match args[0] {
            Value::String(id) => if ui.scrollbars@.contains_key(id@) {
                r == Ok::<Value, String>(Value::Number(widened(scroll_field(ui.scrollbars@[id@], f))))
            } else {
                fails_with(r, "ScrollBar not found"@)
            },
            _ => fails_with(r, expects(name, "a control identifier"@)),
        }
    }
}

fn get_scroll(ui: &Ui, args: Vec<Value>, name: &str, f: ScrollField) -> (r: Result<Value, String>)
    ensures
        scroll_read(*ui, args@, name@, f, r),
{
    if args.len() != 1 {
        return Err(arity_error(name, "1 argument", args.len()));
    }
    let id = match &args[0] {
        Value::String(id) => id,
        _ => return Err(expects_error(name, "a control identifier")),
    };
    match ui.scrollbars.get(id) {
        Some(s) => {
            let v = match f {
                ScrollField::Value => s.value,
                ScrollField::Min => s.min,
                ScrollField::Max => s.max,
                ScrollField::LargeChange => s.large_change,
                ScrollField::SmallChange => s.small_change,
            };
            Ok(Value::Number(single_to_number(v)))
        },
        None => Err(text("ScrollBar not found")),
    }
}

/// `setscrollvalue(bar, value)`: the value kept within the bounds.
pub fn setscrollvalue(ui: &mut Ui, args: Vec<Value>) -> (r: Result<Value, String>)
    requires
        named_scrollbar(*old(ui), args@) matches Some(s) ==> bounds_ok(s.min, s.max),
    ensures
        scroll_set_effect(*old(ui), *final(ui), args@, "setscrollvalue"@, ScrollField::Value, r),
{
    set_scroll(ui, args, "setscrollvalue", ScrollField::Value)
}

/// `getscrollvalue(bar)`.
pub fn getscrollvalue(ui: &Ui, args: Vec<Value>) -> (r: Result<Value, String>)
    ensures
        scroll_read(*ui, args@, "getscrollvalue"@, ScrollField::Value, r),
{
    get_scroll(ui, args, "getscrollvalue", ScrollField::Value)
}

/// `setscrollmin(bar, min)`: the value is raised to the new minimum.
pub fn setscrollmin(ui: &mut Ui, args: Vec<Value>) -> (r: Result<Value, String>)
    ensures
        scroll_set_effect(*old(ui), *final(ui), args@, "setscrollmin"@, ScrollField::Min, r),
{
    set_scroll(ui, args, "setscrollmin", ScrollField::Min)
}

/// `getscrollmin(bar)`.
pub fn getscrollmin(ui: &Ui, args: Vec<Value>) -> (r: Result<Value, String>)
    ensures
        scroll_read(*ui, args@, "getscrollmin"@, ScrollField::Min, r),
{
    get_scroll(ui, args, "getscrollmin", ScrollField::Min)
}

/// `setscrollmax(bar, max)`: the value is lowered to the new maximum.
pub fn setscrollmax(ui: &mut Ui, args: Vec<Value>) -> (r: Result<Value, String>)
    ensures
        scroll_set_effect(*old(ui), *final(ui), args@, "setscrollmax"@, ScrollField::Max, r),
{
    set_scroll(ui, args, "setscrollmax", ScrollField::Max)
}

/// `getscrollmax(bar)`.
pub fn getscrollmax(ui: &Ui, args: Vec<Value>) -> (r: Result<Value, String>)
    ensures
        scroll_read(*ui, args@, "getscrollmax"@, ScrollField::Max, r),
{
    get_scroll(ui, args, "getscrollmax", ScrollField::Max)
}

/// `setlargechange(bar, step)`: not below zero.
pub fn setlargechange(ui: &mut Ui, args: Vec<Value>) -> (r: Result<Value, String>)
    ensures
        scroll_set_effect(*old(ui), *final(ui), args@, "setlargechange"@, ScrollField::LargeChange, r),
{
    set_scroll(ui, args, "setlargechange", ScrollField::LargeChange)
}

/// `getlargechange(bar)`.
pub fn getlargechange(ui: &Ui, args: Vec<Value>) -> (r: Result<Value, String>)
    ensures
        scroll_read(*ui, args@, "getlargechange"@, ScrollField::LargeChange, r),
{
    get_scroll(ui, args, "getlargechange", ScrollField::LargeChange)
}

/// `setsmallchange(bar, step)`: not below zero.
pub fn setsmallchange(ui: &mut Ui, args: Vec<Value>) -> (r: Result<Value, String>)
    ensures
        scroll_set_effect(*old(ui), *final(ui), args@, "setsmallchange"@, ScrollField::SmallChange, r),
{
    set_scroll(ui, args, "setsmallchange", ScrollField::SmallChange)
}

/// `getsmallchange(bar)`.
pub fn getsmallchange(ui: &Ui, args: Vec<Value>) -> (r: Result<Value, String>)
    ensures
        scroll_read(*ui, args@, "getsmallchange"@, ScrollField::SmallChange, r),
{
    get_scroll(ui, args, "getsmallchange", ScrollField::SmallChange)
}

// -------------------------------------------------------------- pictures

/// `setimage(control, path)`: the image of an image button, else of a picture
/// box; its pixels are loaded anew.
pub fn setimage(ui: &mut Ui, args: Vec<Value>) -> (r: Result<Value, String>)
    ensures
        args.len() != 2 ==> fails_with(r, arity_message("setimage"@, "2 arguments"@, args.len() as nat))
            && *final(ui) == *old(ui),
        args.len() == 2 ==> match (args@[0], args@[1]) {
            (Value::String(id), Value::String(path)) => if old(ui).imagebuttons@.contains_key(id@) {
                &&& r == Ok::<Value, String>(Value::Null)
                &&& final(ui).imagebuttons@ == old(ui).imagebuttons@.insert(
                    id@,
                    ImageButtonState { image_path: Some(path), texture_loaded: false },
                )
                &&& *final(ui) == (Ui { imagebuttons: final(ui).imagebuttons, ..*old(ui) })
            } else if old(ui).pictureboxes@.contains_key(id@) {
                &&& r == Ok::<Value, String>(Value::Null)
                &&& final(ui).pictureboxes@ == old(ui).pictureboxes@.insert(
                    id@,
                    PictureBoxState { image_path: Some(path), texture_loaded: false, ..old(ui).pictureboxes@[id@] },
                )
                &&& *final(ui) == (Ui { pictureboxes: final(ui).pictureboxes, ..*old(ui) })
            } else {
                fails_with(r, "Control not found. Supported controls: ImageButton, PictureBox"@)
                    && *final(ui) == *old(ui)
            },
            (Value::String(_), _) => fails_with(r, expects("setimage"@, "a string for the image path"@))
                && *final(ui) == *old(ui),
            _ => fails_with(r, expects("setimage"@, "a control identifier (string)"@)) && *final(ui) == *old(ui),
        },
{
    if args.len() != 2 {
        return Err(arity_error("setimage", "2 arguments", args.len()));
    }
    let (a, b) = take_two(args);
    let id = match a {
        Value::String(id) => id,
        _ => return Err(expects_error("setimage", "a control identifier (string)")),
    };
    let path = match b {
        Value::String(p) => p,
        _ => return Err(expects_error("setimage", "a string for the image path")),
    };
    match ui.imagebuttons.find(&id) {
        Some(i) => {
            let s = ui.imagebuttons.value_mut(i);
            s.image_path = Some(path);
            s.texture_loaded = false;
            return Ok(Value::Null);
        },
        None => {},
    }
    match ui.pictureboxes.find(&id) {
        Some(i) => {
            let s = ui.pictureboxes.value_mut(i);
            s.image_path = Some(path);
            s.texture_loaded = false;
            Ok(Value::Null)
        },
        None => Err(text("Control not found. Supported controls: ImageButton, PictureBox")),
    }
}

/// The size mode that a (lower-case) name stands for.
pub open spec fn size_mode_of(s: Seq<char>) -> Option<SizeMode> {
    if s == "normal"@ {
        Some(SizeMode::Normal)
    } else if s == "stretch"@ {
        Some(SizeMode::Stretch)
    } else if s == "zoom"@ {
        Some(SizeMode::Zoom)
    } else {
        None
    }
}

/// The size mode that a lower-case name stands for, if any.
pub fn parse_size_mode(s: &String) -> (r: Option<SizeMode>)
    ensures
        r == size_mode_of(s@),
{
    if same_text(s, "normal") {
        Some(SizeMode::Normal)
    } else if same_text(s, "stretch") {
        Some(SizeMode::Stretch)
    } else if same_text(s, "zoom") {
        Some(SizeMode::Zoom)
    } else {
        None
    }
}

/// `setsizemode(picturebox, "normal" | "stretch" | "zoom")`, in any case.
pub fn setsizemode(ui: &mut Ui, args: Vec<Value>) -> (r: Result<Value, String>)
    ensures
        args.len() != 2 ==> fails_with(r, arity_message("setsizemode"@, "2 arguments"@, args.len() as nat))
            && *final(ui) == *old(ui),
        args.len() == 2 ==> match (args@[0], args@[1]) {
            (Value::String(id), Value::String(s)) => match size_mode_of(lowercase_text(s@)) {
                None => fails_with(r, "setsizemode() expects 'normal', 'stretch', or 'zoom'"@) && *final(ui) == *old(ui),
                Some(m) => if old(ui).pictureboxes@.contains_key(id@) {
                    &&& r == Ok::<Value, String>(Value::Null)
                    &&& final(ui).pictureboxes@ == old(ui).pictureboxes@.insert(
                        id@,
                        PictureBoxState { size_mode: m, ..old(ui).pictureboxes@[id@] },
                    )
                    &&& *final(ui) == (Ui { pictureboxes: final(ui).pictureboxes, ..*old(ui) })
                } else {
                    fails_with(r, "PictureBox not found"@) && *final(ui) == *old(ui)
                },
            },
            (Value::String(_), _) => fails_with(r, expects("setsizemode"@, "a string"@)) && *final(ui) == *old(ui),
            _ => fails_with(r, expects("setsizemode"@, "a control identifier"@)) && *final(ui) == *old(ui),
        },
{
    if args.len() != 2 {
        return Err(arity_error("setsizemode", "2 arguments", args.len()));
    }
    let id = match &args[0] {
        Value::String(id) => id,
        _ => return Err(expects_error("setsizemode", "a control identifier")),
    };
    let mode = match &args[1] {
        Value::String(s) => match parse_size_mode(&lowercase(s)) {
            Some(m) => m,
            None => return Err(text("setsizemode() expects 'normal', 'stretch', or 'zoom'")),
        },
        _ => return Err(expects_error("setsizemode", "a string")),
    };
    match ui.pictureboxes.find(id) {
        Some(i) => {
            let s = ui.pictureboxes.value_mut(i);
            s.size_mode = mode;
            Ok(Value::Null)
        },
        None => Err(text("PictureBox not found")),
    }
}

// --------------------------------------------------------- progress bars

/// The opaque blue that a progress bar falls back to.
pub open spec fn bar_blue() -> Color {
    Color { r: 0, g: 0, b: 255, a: 255 }
}

/// `setbarcolor(bar, colour text)`: an unreadable colour is blue.
pub fn setbarcolor(ui: &mut Ui, args: Vec<Value>) -> (r: Result<Value, String>)
    ensures
        args.len() != 2 ==> fails_with(r, arity_message("setbarcolor"@, "2 arguments"@, args.len() as nat))
            && *final(ui) == *old(ui),
        args.len() == 2 ==> match (args@[0], args@[1]) {
            (Value::String(id), Value::String(s)) => if old(ui).progressbars@.contains_key(id@) {
                &&& r == Ok::<Value, String>(Value::Null)
                &&& final(ui).progressbars@ == old(ui).progressbars@.insert(
                    id@,
                    ProgressBarState {
                        bar_color: match parsed_color(s@) {
                            Some(c) => c,
                            None => bar_blue(),
                        },
                        ..old(ui).progressbars@[id@]
                    },
                )
                &&& *final(ui) == (Ui { progressbars: final(ui).progressbars, ..*old(ui) })
            } else {
                fails_with(r, "ProgressBar not found"@) && *final(ui) == *old(ui)
            },
            (Value::String(_), _) => fails_with(r, expects("setbarcolor"@, "a color string"@)) && *final(ui) == *old(ui),
            _ => fails_with(r, expects("setbarcolor"@, "a control identifier"@)) && *final(ui) == *old(ui),
        },
{
    if args.len() != 2 {
        return Err(arity_error("setbarcolor", "2 arguments", args.len()));
    }
    let id = match &args[0] {
        Value::String(id) => id,
        _ => return Err(expects_error("setbarcolor", "a control identifier")),
    };
    let color = match &args[1] {
        Value::String(s) => match parse_color(s) {
            Some(c) => c,
            None => Color { r: 0, g: 0, b: 255, a: 255 },
        },
        _ => return Err(expects_error("setbarcolor", "a color string")),
    };
    match ui.progressbars.find(id) {
        Some(i) => {
            let s = ui.progressbars.value_mut(i);
            s.bar_color = color;
            Ok(Value::Null)
        },
        None => Err(text("ProgressBar not found")),
    }
}

/// `getbarcolor(bar)`: `"r,g,b"`.
pub fn getbarcolor(ui: &Ui, args: Vec<Value>) -> (r: Result<Value, String>)
    ensures
        args.len() != 1 ==> fails_with(r, arity_message("getbarcolor"@, "1 argument"@, args.len() as nat)),
        args.len() == 1 ==> match args@[0] {
            Value::String(id) => if ui.progressbars@.contains_key(id@) {
                r matches Ok(Value::String(s)) && s@ == color_text(ui.progressbars@[id@].bar_color)
            } else {
                fails_with(r, "ProgressBar not found"@)
            },
            _ => fails_with(r, expects("getbarcolor"@, "a control identifier"@)),
        },
{
    if args.len() != 1 {
        return Err(arity_error("getbarcolor", "1 argument", args.len()));
    }
    let id = match &args[0] {
        Value::String(id) => id,
        _ => return Err(expects_error("getbarcolor", "a control identifier")),
    };
    match ui.progressbars.get(id) {
        Some(s) => Ok(Value::String(color_string(s.bar_color))),
        None => Err(text("ProgressBar not found")),
    }
}

/// The bar style that a (lower-case) name stands for.
pub open spec fn bar_style_of(s: Seq<char>) -> Option<BarStyle> {
    if s == "solid"@ {
        Some(BarStyle::Solid)
    } else if s == "marquee"@ {
        Some(BarStyle::Marquee)
    } else {
        None
    }
}

/// `setbarstyle(bar, "solid" | "marquee")`, in any case.
pub fn setbarstyle(ui: &mut Ui, args: Vec<Value>) -> (r: Result<Value, String>)
    ensures
        args.len() != 2 ==> fails_with(r, arity_message("setbarstyle"@, "2 arguments"@, args.len() as nat))
            && *final(ui) == *old(ui),
        args.len() == 2 ==> match (args@[0], args@[1]) {
            (Value::String(id), Value::String(s)) => match bar_style_of(lowercase_text(s@)) {
                None => fails_with(r, "setbarstyle() expects 'solid' or 'marquee'"@) && *final(ui) == *old(ui),
                Some(st) => if old(ui).progressbars@.contains_key(id@) {
                    &&& r == Ok::<Value, String>(Value::Null)
                    &&& final(ui).progressbars@ == old(ui).progressbars@.insert(
                        id@,
                        ProgressBarState { style: st, ..old(ui).progressbars@[id@] },
                    )
                    &&& *final(ui) == (Ui { progressbars: final(ui).progressbars, ..*old(ui) })
                } else {
                    fails_with(r, "ProgressBar not found"@) && *final(ui) == *old(ui)
                },
            },
            (Value::String(_), _) => fails_with(r, expects("setbarstyle"@, "a string"@)) && *final(ui) == *old(ui),
            _ => fails_with(r, expects("setbarstyle"@, "a control identifier"@)) && *final(ui) == *old(ui),
        },
{
    if args.len() != 2 {
        return Err(arity_error("setbarstyle", "2 arguments", args.len()));
    }
    let id = match &args[0] {
        Value::String(id) => id,
        _ => return Err(expects_error("setbarstyle", "a control identifier")),
    };
    let style = match &args[1] {
        Value::String(s) => {
            let low = lowercase(s);
            if same_text(&low, "solid") {
                BarStyle::Solid
            } else if same_text(&low, "marquee") {
                BarStyle::Marquee
            } else {
                return Err(text("setbarstyle() expects 'solid' or 'marquee'"));
            }
        },
        _ => return Err(expects_error("setbarstyle", "a string")),
    };
    match ui.progressbars.find(id) {
        Some(i) => {
            let s = ui.progressbars.value_mut(i);
            s.style = style;
            Ok(Value::Null)
        },
        None => Err(text("ProgressBar not found")),
    }
}

/// The name of a bar style.
pub open spec fn bar_style_text(s: BarStyle) -> Seq<char> {
    match s {
        BarStyle::Solid => "solid"@,
        BarStyle::Marquee => "marquee"@,
    }
}

/// `getbarstyle(bar)`: `"solid"` or `"marquee"`.
pub fn getbarstyle(ui: &Ui, args: Vec<Value>) -> (r: Result<Value, String>)
    ensures
        args.len() != 1 ==> fails_with(r, arity_message("getbarstyle"@, "1 argument"@, args.len() as nat)),
        args.len() == 1 ==> match args@[0] {
            Value::String(id) => if ui.progressbars@.contains_key(id@) {
                r matches Ok(Value::String(s)) && s@ == bar_style_text(ui.progressbars@[id@].style)
            } else {
                fails_with(r, "ProgressBar not found"@)
            },
            _ => fails_with(r, expects("getbarstyle"@, "a control identifier"@)),
        },
{
    if args.len() != 1 {
        return Err(arity_error("getbarstyle", "1 argument", args.len()));
    }
    let id = match &args[0] {
        Value::String(id) => id,
        _ => return Err(expects_error("getbarstyle", "a control identifier")),
    };
    match ui.progressbars.get(id) {
        Some(s) => Ok(Value::String(
            match s.style {
                BarStyle::Solid => text("solid"),
                BarStyle::Marquee => text("marquee"),
            },
        )),
        None => Err(text("ProgressBar not found")),
    }
}

// ------------------------------------------- progress bars, sliders, number boxes

/// `x` kept between `lo` and `hi`, as `f64::clamp` keeps it.
pub open spec fn num_clamped(x: u64, lo: u64, hi: u64) -> u64 {
    if num_less(x, lo) {
        lo
    } else if num_less(hi, x) {
        hi
    } else {
        x
    }
}

/// Bounds that `f64::clamp` accepts.
pub open spec fn num_bounds_ok(lo: u64, hi: u64) -> bool {
    !is_nan(lo) && !is_nan(hi) && !num_less(hi, lo)
}

/// `r` may be `a.max(b)` for numbers.
pub open spec fn num_max_of(a: u64, b: u64, r: u64) -> bool {
    if is_nan(a) {
        r == b
    } else if is_nan(b) {
        r == a
    } else if num_less(a, b) {
        r == b
    } else if num_less(b, a) {
        r == a
    } else {
        r == a || r == b
    }
}

/// `r` may be `a.min(b)` for numbers.
pub open spec fn num_min_of(a: u64, b: u64, r: u64) -> bool {
    if is_nan(a) {
        r == b
    } else if is_nan(b) {
        r == a
    } else if num_less(a, b) {
        r == a
    } else if num_less(b, a) {
        r == b
    } else {
        r == a || r == b
    }
}

fn num_lt(a: u64, b: u64) -> (r: bool)
    ensures
        r == num_less(a, b),
{
    match number_order(a, b) {
        Some(NumOrder::Less) => true,
        _ => false,
    }
}

/// `x.clamp(lo, hi)` for numbers.
pub fn number_clamp(x: u64, lo: u64, hi: u64) -> (r: u64)
    requires
        num_bounds_ok(lo, hi),
    ensures
        r == num_clamped(x, lo, hi),
{
    if num_lt(x, lo) {
        lo
    } else if num_lt(hi, x) {
        hi
    } else {
        x
    }
}

/// `a.max(b)` for numbers.
pub fn number_max(a: u64, b: u64) -> (r: u64)
    ensures
        num_max_of(a, b, r),
{
    if number_is_nan(a) {
        b
    } else if number_is_nan(b) {
        a
    } else if num_lt(a, b) {
        b
    } else {
        a
    }
}

/// `a.min(b)` for numbers.
pub fn number_min(a: u64, b: u64) -> (r: u64)
    ensures
        num_min_of(a, b, r),
{
    if number_is_nan(a) {
        b
    } else if number_is_nan(b) {
        a
    } else if num_lt(b, a) {
        b
    } else {
        a
    }
}

/// Which value of a progress bar, slider or number box a call sets or reads.
#[derive(Clone, Copy, Debug, PartialEq, Eq, Structural)]
pub enum GaugeField {
    Value,
    Min,
    Max,
}

/// A progress bar after setting `f` from the number `n`.
pub open spec fn progress_set(s: ProgressBarState, f: GaugeField, n: u64, t: ProgressBarState) -> bool {
    let x = narrowed(n);
    match f {
        GaugeField::Value => t == (ProgressBarState { value: clamped(x, s.min, s.max), ..s }),
        GaugeField::Min => t == (ProgressBarState { min: x, value: t.value, ..s }) && single_max_of(s.value, x, t.value),
        GaugeField::Max => t == (ProgressBarState { max: x, value: t.value, ..s }) && single_min_of(s.value, x, t.value),
    }
}

/// A slider after setting `f` from the number `n`.
pub open spec fn slider_set(s: SliderState, f: GaugeField, n: u64, t: SliderState) -> bool {
    let x = narrowed(n);
    match f {
        GaugeField::Value => t == (SliderState { value: clamped(x, s.min, s.max), ..s }),
        GaugeField::Min => t == (SliderState { min: x, value: t.value, ..s }) && single_max_of(s.value, x, t.value),
        GaugeField::Max => t == (SliderState { max: x, value: t.value, ..s }) && single_min_of(s.value, x, t.value),
    }
}

/// A number box after setting `f` from the number `n`; a new minimum goes
/// through single precision first.
pub open spec fn numberbox_set(s: NumberBoxState, f: GaugeField, n: u64, t: NumberBoxState) -> bool {
    match f {
        GaugeField::Value => t == (NumberBoxState { value: num_clamped(n, s.min, s.max), ..s }),
        GaugeField::Min => {
            let m = widened(narrowed(n));
            t == (NumberBoxState { min: m, value: t.value, ..s }) && num_max_of(s.value, m, t.value)
        },
        GaugeField::Max => t == (NumberBoxState { max: n, value: t.value, ..s }) && num_min_of(s.value, n, t.value),
    }
}

/// The error of a call on a gauge that is not there.
pub open spec fn gauge_missing(f: GaugeField, reading: bool) -> Seq<char> {
    if reading && f == GaugeField::Max {
        "Control (Progrssbar, Slider, Numberbox) not found"@
    } else if !reading && f == GaugeField::Max {
        "Control not found"@
    } else {
        "Control not found. Supported controls: ProgressBar, Slider, NumberBox"@
    }
}

fn gauge_missing_error(f: GaugeField, reading: bool) -> (s: String)
    ensures
        s@ == gauge_missing(f, reading),
{
    match f {
        GaugeField::Max => if reading {
            text("Control (Progrssbar, Slider, Numberbox) not found")
        } else {
            text("Control not found")
        },
        _ => text("Control not found. Supported controls: ProgressBar, Slider, NumberBox"),
    }
}

/// Setting the value of the gauge that a call names keeps to bounds that the
/// clamp accepts.
pub open spec fn gauge_bounds_ok(ui: Ui, args: Seq<Value>) -> bool {
    args.len() >= 1 && args[0] is String ==> {
        let id = id_arg(args);
        if ui.progressbars@.contains_key(id) {
            bounds_ok(ui.progressbars@[id].min, ui.progressbars@[id].max)
        } else if ui.sliders@.contains_key(id) {
            bounds_ok(ui.sliders@[id].min, ui.sliders@[id].max)
        } else if ui.numberboxes@.contains_key(id) {
            num_bounds_ok(ui.numberboxes@[id].min, ui.numberboxes@[id].max)
        } else {
            true
        }
    }
}

/// The result and effect of `setvalue`, `setmin` and `setmax`: a progress bar
/// is looked for first, then a slider, then a number box, whose text is then
/// due to be written anew.
pub open spec fn gauge_set_effect(
    before: Ui,
    after: Ui,
    args: Seq<Value>,
    name: Seq<char>,
    f: GaugeField,
    r: Result<Value, String>,
) -> bool {
    if args.len() != 2 {
        fails_with(r, arity_message(name, "2 arguments"@, args.len())) && after == before
    } else {
        match (args[0], args[1]) {
            (Value::String(id), Value::Number(n)) => if before.progressbars@.contains_key(id@) {
                &&& r == Ok::<Value, String>(Value::Null)
                &&& after.progressbars@ == before.progressbars@.insert(id@, after.progressbars@[id@])
                &&& progress_set(before.progressbars@[id@], f, n, after.progressbars@[id@])
                &&& after == (Ui { progressbars: after.progressbars, ..before })
            } else if before.sliders@.contains_key(id@) {
                &&& r == Ok::<Value, String>(Value::Null)
                &&& after.sliders@ == before.sliders@.insert(id@, after.sliders@[id@])
                &&& slider_set(before.sliders@[id@], f, n, after.sliders@[id@])
                &&& after == (Ui { sliders: after.sliders, ..before })
            } else if before.numberboxes@.contains_key(id@) {
                &&& r == Ok::<Value, String>(Value::Null)
                &&& after.numberboxes@ == before.numberboxes@.insert(id@, after.numberboxes@[id@])
                &&& numberbox_set(before.numberboxes@[id@], f, n, after.numberboxes@[id@])
                &&& after.number_texts_due@ == before.number_texts_due@.push(id)
                &&& after == (Ui { numberboxes: after.numberboxes, number_texts_due: after.number_texts_due, ..before })
            } else {
                fails_with(r, gauge_missing(f, false)) && after == before
            },
            (Value::String(_), _) => fails_with(r, expects(name, "a number"@)) && after == before,
            _ => fails_with(r, expects(name, "a control identifier"@)) && after == before,
        }
    }
}

fn set_gauge(ui: &mut Ui, args: Vec<Value>, name: &str, f: GaugeField) -> (r: Result<Value, String>)
    requires
        f == GaugeField::Value ==> gauge_bounds_ok(*old(ui), args@),
    ensures
        gauge_set_effect(*old(ui), *final(ui), args@, name@, f, r),
{
    if args.len() != 2 {
        return Err(arity_error(name, "2 arguments", args.len()));
    }
    let id = match &args[0] {
        Value::String(id) => id,
        _ => return Err(expects_error(name, "a control identifier")),
    };
    let n = match &args[1] {
        Value::Number(n) => *n,
        _ => return Err(expects_error(name, "a number")),
    };
    match ui.progressbars.find(id) {
        Some(i) => {
            let x = number_to_single(n);
            let s = ui.progressbars.value_mut(i);
            match f {
                GaugeField::Value => s.value = single_clamp(x, s.min, s.max),
                GaugeField::Min => {
                    s.min = x;
                    s.value = single_max(s.value, x);
                },
                GaugeField::Max => {
                    s.max = x;
                    s.value = single_min(s.value, x);
                },
            }
            return Ok(Value::Null);
        },
        None => {},
    }
    match ui.sliders.find(id) {
        Some(i) => {
            let x = number_to_single(n);
            let s = ui.sliders.value_mut(i);
            match f {
                GaugeField::Value => s.value = single_clamp(x, s.min, s.max),
                GaugeField::Min => {
                    s.min = x;
                    s.value = single_max(s.value, x);
                },
                GaugeField::Max => {
                    s.max = x;
                    s.value = single_min(s.value, x);
                },
            }
            return Ok(Value::Null);
        },
        None => {},
    }
    match ui.numberboxes.find(id) {
        Some(i) => {
            let s = ui.numberboxes.value_mut(i);
            match f {
                GaugeField::Value => s.value = number_clamp(n, s.min, s.max),
                GaugeField::Min => {
                    let m = single_to_number(number_to_single(n));
                    s.min = m;
                    s.value = number_max(s.value, m);
                },
                GaugeField::Max => {
                    s.max = n;
                    s.value = number_min(s.value, n);
                },
            }
            ui.number_texts_due.push(id.clone());
            Ok(Value::Null)
        },
        None => Err(gauge_missing_error(f, false)),
    }
}

/// The value of a progress bar, slider or number box that a field names, as a number.
pub open spec fn gauge_read_value(ui: Ui, id: Seq<char>, f: GaugeField) -> Option<u64> {
    if ui.progressbars@.contains_key(id) {
        let s = ui.progressbars@[id];
        Some(widened(match f {
            GaugeField::Value => s.value,
            GaugeField::Min => s.min,
            GaugeField::Max => s.max,
        }))
    } else if ui.sliders@.contains_key(id) {
        let s = ui.sliders@[id];
        Some(widened(match f {
            GaugeField::Value => s.value,
            GaugeField::Min => s.min,
            GaugeField::Max => s.max,
        }))
    } else if ui.numberboxes@.contains_key(id) {
        let s = ui.numberboxes@[id];
        Some(match f {
            GaugeField::Value => s.value,
            GaugeField::Min => s.min,
            GaugeField::Max => s.max,
        })
    } else {
        None
    }
}

/// What `getvalue`, `getmin` and `getmax` give.
pub open spec fn gauge_read(ui: Ui, args: Seq<Value>, name: Seq<char>, f: GaugeField, r: Result<Value, String>) -> bool {
    if args.len() != 1 {
        fails_with(r, arity_message(name, "1 argument"@, args.len()))
    } else {
        match args[0] {
            Value::String(id) => match gauge_read_value(ui, id@, f) {
                Some(v) => r == Ok::<Value, String>(Value::Number(v)),
                None => fails_with(r, gauge_missing(f, true)),
            },
            _ => fails_with(r, expects(name, "a control identifier"@)),
        }
    }
}

fn get_gauge(ui: &Ui, args: Vec<Value>, name: &str, f: GaugeField) -> (r: Result<Value, String>)
    ensures
        gauge_read(*ui, args@, name@, f, r),
{
    if args.len() != 1 {
        return Err(arity_error(name, "1 argument", args.len()));
    }
    let id = match &args[0] {
        Value::String(id) => id,
        _ => return Err(expects_error(name, "a control identifier")),
    };
    match ui.progressbars.get(id) {
        Some(s) => {
            let v = match f {
                GaugeField::Value => s.value,
                GaugeField::Min => s.min,
                GaugeField::Max => s.max,
            };
            return Ok(Value::Number(single_to_number(v)));
        },
        None => {},
    }
    match ui.sliders.get(id) {
        Some(s) => {
            let v = match f {
                GaugeField::Value => s.value,
                GaugeField::Min => s.min,
                GaugeField::Max => s.max,
            };
            return Ok(Value::Number(single_to_number(v)));
        },
        None => {},
    }
    match ui.numberboxes.get(id) {
        Some(s) => Ok(Value::Number(
            match f {
                GaugeField::Value => s.value,
                GaugeField::Min => s.min,
                GaugeField::Max => s.max,
            },
        )),
        None => Err(gauge_missing_error(f, true)),
    }
}

/// `setvalue(gauge, value)`: kept within the gauge's bounds.
pub fn setvalue(ui: &mut Ui, args: Vec<Value>) -> (r: Result<Value, String>)
    requires
        gauge_bounds_ok(*old(ui), args@),
    ensures
        gauge_set_effect(*old(ui), *final(ui), args@, "setvalue"@, GaugeField::Value, r),
{
    set_gauge(ui, args, "setvalue", GaugeField::Value)
}

/// `getvalue(gauge)`.
pub fn getvalue(ui: &Ui, args: Vec<Value>) -> (r: Result<Value, String>)
    ensures
        gauge_read(*ui, args@, "getvalue"@, GaugeField::Value, r),
{
    get_gauge(ui, args, "getvalue", GaugeField::Value)
}

/// `setmin(gauge, min)`: the value is raised to the new minimum.
pub fn setmin(ui: &mut Ui, args: Vec<Value>) -> (r: Result<Value, String>)
    ensures
        gauge_set_effect(*old(ui), *final(ui), args@, "setmin"@, GaugeField::Min, r),
{
    set_gauge(ui, args, "setmin", GaugeField::Min)
}

/// `getmin(gauge)`.
pub fn getmin(ui: &Ui, args: Vec<Value>) -> (r: Result<Value, String>)
    ensures
        gauge_read(*ui, args@, "getmin"@, GaugeField::Min, r),
{
    get_gauge(ui, args, "getmin", GaugeField::Min)
}

/// `setmax(gauge, max)`: the value is lowered to the new maximum.
pub fn setmax(ui: &mut Ui, args: Vec<Value>) -> (r: Result<Value, String>)
    ensures
        gauge_set_effect(*old(ui), *final(ui), args@, "setmax"@, GaugeField::Max, r),
{
    set_gauge(ui, args, "setmax", GaugeField::Max)
}

/// `getmax(gauge)`.
pub fn getmax(ui: &Ui, args: Vec<Value>) -> (r: Result<Value, String>)
    ensures
        gauge_read(*ui, args@, "getmax"@, GaugeField::Max, r),
{
    get_gauge(ui, args, "getmax", GaugeField::Max)
}

} // verus!
