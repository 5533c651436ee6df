//! Creating forms, controls and timers: the arguments they take, the
//! defaults of those left out, and the fresh identifier each one gets.

use vstd::prelude::*;
use crate::color::{parse_color, parsed_color};
use crate::gauges::SINGLE_ZERO;
use crate::registry::Registry;
use crate::single::{narrowed, number_to_single};
use crate::text::{arity_error, arity_message, fails_with, same_text, text};
use crate::ui::{
    black, expects, expects_error, lowercase, lowercase_text, transparent, Color, ControlSettings, DockStyle,
    FormSettings, Orientation, PictureBoxState, ProgressBarState, ScrollBarState, TextAlign, TimerState, Ui,
    FONT_SIZE_DEFAULT,
};
use crate::value::Value;
use crate::widgets::{new_timer, number_to_u32, saturating_u32};

verus! {

/// The text of a version-4 identifier: 36 characters, lower-case hexadecimal
/// digits in groups of 8, 4, 4, 4 and 12 joined by hyphens.
pub open spec fn is_uuid_text(s: Seq<char>) -> bool {
    &&& s.len() == 36
    &&& forall|i: int|
        0 <= i < 36 ==> if i == 8 || i == 13 || i == 18 || i == 23 {
            s[i] == '-'
        } else {
            ('0' <= #[trigger] s[i] <= '9') || ('a' <= s[i] <= 'f')
        }
}

/// `Uuid::new_v4().to_string()`: a random identifier. The crate formats it
/// hyphenated in lower case, so it has the shape of `is_uuid_text`; which
/// identifier comes is left open.
#[verifier::external_body]
pub(crate) fn new_identifier() -> (s: String)
    ensures
        is_uuid_text(s@),
{
    uuid::Uuid::new_v4().to_string()
}

/// The `f32` bit patterns of the sizes that creation falls back to.
pub const SIZE_5: u32 = 0x40A0_0000;

pub const SIZE_14: u32 = 0x4160_0000;

pub const SIZE_20: u32 = 0x41A0_0000;

pub const SIZE_30: u32 = 0x41F0_0000;

pub const SIZE_100: u32 = 0x42C8_0000;

pub const SIZE_150: u32 = 0x4316_0000;

pub const SIZE_200: u32 = 0x4348_0000;

pub const SIZE_300: u32 = 0x4396_0000;

/// The single that optional argument `i` gives: `absent` when there is no
/// such argument, the number as a single when it is one, else `other`.
pub open spec fn arg_single(args: Seq<Value>, i: int, absent: u32, other: u32) -> u32 {
    if i >= args.len() {
        absent
    } else {
        match args[i] {
            Value::Number(n) => narrowed(n),
            _ => other,
        }
    }
}

/// The flag that optional argument `i` gives.
pub open spec fn arg_flag(args: Seq<Value>, i: int, d: bool) -> bool {
    if i < args.len() && args[i] is Bool {
        args[i]->Bool_0
    } else {
        d
    }
}

/// The text that optional argument `i` gives.
pub open spec fn arg_text(args: Seq<Value>, i: int, d: Seq<char>) -> Seq<char> {
    if i < args.len() && args[i] is String {
        args[i]->String_0@
    } else {
        d
    }
}

/// The colour that optional argument `i` gives: a readable colour text, else `d`.
pub open spec fn arg_color(args: Seq<Value>, i: int, d: Color) -> Color {
    if i < args.len() && args[i] is String {
        match parsed_color(args[i]->String_0@) {
            Some(c) => c,
            None => d,
        }
    } else {
        d
    }
}

pub(crate) fn opt_single(args: &Vec<Value>, i: usize, absent: u32, other: u32) -> (r: u32)
    ensures
        r == arg_single(args@, i as int, absent, other),
{
    if i >= args.len() {
        absent
    } else {
        match &args[i] {
            Value::Number(n) => number_to_single(*n),
            _ => other,
        }
    }
}

pub(crate) fn opt_flag(args: &Vec<Value>, i: usize, d: bool) -> (r: bool)
    ensures
        r == arg_flag(args@, i as int, d),
{
    if i < args.len() {
        match &args[i] {
            Value::Bool(b) => *b,
            _ => d,
        }
    } else {
        d
    }
}

pub(crate) fn opt_text(args: &Vec<Value>, i: usize, d: &str) -> (r: String)
    ensures
        r@ == arg_text(args@, i as int, d@),
{
    if i < args.len() {
        match &args[i] {
            Value::String(s) => s.clone(),
            _ => text(d),
        }
    } else {
        text(d)
    }
}

pub(crate) fn opt_color(args: &Vec<Value>, i: usize, d: Color) -> (r: Color)
    ensures
        r == arg_color(args@, i as int, d),
{
    if i < args.len() {
        match &args[i] {
            Value::String(s) => match parse_color(s) {
                Some(c) => c,
                None => d,
            },
            _ => d,
        }
    } else {
        d
    }
}

/// The settings that no creation function chooses: shown, enabled, no
/// margin, placed freely, no children, no border or shadow, and so on.
pub open spec fn plain_rest(c: ControlSettings) -> bool {
    &&& c.visible
    &&& c.enabled
    &&& c.margin == (0u32, 0u32, 0u32, 0u32)
    &&& c.layout_constraint is None
    &&& c.treeview_on_events@ == Map::<Seq<char>, Option<Value>>::empty()
    &&& !c.multiline
    &&& c.children@ == Seq::<String>::empty()
    &&& !c.border
    &&& !c.shadow
    &&& c.orientation@ == "horizontal"@
    &&& c.border_style@ == "solid"@
}

/// The settings that the controls without text take from the defaults.
pub open spec fn plain_style(c: ControlSettings) -> bool {
    &&& c.text@ == Seq::<char>::empty()
    &&& !c.autosize
    &&& c.fontname@ == "SegoeUI"@
    &&& c.fontsize == FONT_SIZE_DEFAULT
    &&& c.fontweight@ == "regular"@
    &&& c.forecolor == black()
    &&& c.text_alignment == TextAlign::LeftTop
    &&& c.padding == (0u32, 0u32, 0u32, 0u32)
    &&& c.callback is None
    &&& c.cursor@ == "default"@
    &&& !c.checked
    &&& c.group is None
    &&& !c.use_as_default_panel
    &&& c.dock == DockStyle::NoDock
}

/// The new control `id` has been added to the form `form`: the table of
/// controls holds it, and it comes last in the form's order.
pub open spec fn control_added(before: Ui, after: Ui, form: Seq<char>, id: String) -> bool {
    let f = after.forms@[form];
    &&& is_uuid_text(id@)
    &&& after.controls@ == before.controls@.insert(id@, after.controls@[id@])
    &&& after.forms@ == before.forms@.insert(form, f)
    &&& f == (FormSettings { controls_order: f.controls_order, ..before.forms@[form] })
    &&& f.controls_order@ == before.forms@[form].controls_order@.push(id)
}

/// Adds a control to a form that exists, under a fresh identifier.
pub(crate) fn add_control(ui: &mut Ui, form: &String, c: ControlSettings) -> (id: String)
    requires
        old(ui).forms@.contains_key(form@),
    ensures
        control_added(*old(ui), *final(ui), form@, id),
        final(ui).controls@[id@] == c,
        *final(ui) == (Ui { controls: final(ui).controls, forms: final(ui).forms, ..*old(ui) }),
{
    let id = new_identifier();
    add_control_as(ui, form, id.clone(), c);
    id
}

/// Adds a control to a form that exists, under the given fresh identifier.
pub(crate) fn add_control_as(ui: &mut Ui, form: &String, id: String, c: ControlSettings)
    requires
        old(ui).forms@.contains_key(form@),
        is_uuid_text(id@),
    ensures
        control_added(*old(ui), *final(ui), form@, id),
        final(ui).controls@[id@] == c,
        *final(ui) == (Ui { controls: final(ui).controls, forms: final(ui).forms, ..*old(ui) }),
{
    ui.controls.insert(id.clone(), c);
    match ui.forms.find(form) {
        Some(i) => {
            let f = ui.forms.value_mut(i);
            f.controls_order.push(id.clone());
        },
        None => {},
    }
}

/// The error of the arguments of a creation function: their number, the form
/// identifier first, then `rest` of the required ones.
pub open spec fn creation_error(
    args: Seq<Value>,
    name: Seq<char>,
    lo: nat,
    hi: nat,
    arity: Seq<char>,
) -> Option<Seq<char>> {
    if args.len() < lo || args.len() > hi {
        Some(arity_message(name, arity, args.len()))
    } else if !(args[0] is FormObject) {
        Some(expects(name, "a Form identifier"@))
    } else {
        None
    }
}

/// The form that the first argument of a creation names.
pub open spec fn parent_arg(args: Seq<Value>) -> Seq<char> {
    match args[0] {
        Value::FormObject(id) => id@,
        _ => Seq::empty(),
    }
}

/// `createform(title, width, height)`: a hidden form, under a fresh identifier.
pub fn createform(ui: &mut Ui, args: Vec<Value>) -> (r: Result<Value, String>)
    ensures
        args.len() != 3 ==> fails_with(r, arity_message("createform"@, "3 arguments"@, args.len() as nat))
            && *final(ui) == *old(ui),
        args.len() == 3 ==> match (args@[0], args@[1], args@[2]) {
            (Value::String(title), Value::Number(w), Value::Number(h)) => r matches Ok(Value::FormObject(id)) && {
                let f = final(ui).forms@[id@];
                &&& is_uuid_text(id@)
                &&& final(ui).forms@ == old(ui).forms@.insert(id@, f)
                &&& final(ui).form_visibilities@ == old(ui).form_visibilities@.insert(id@, false)
                &&& f.title == title
                &&& f.width == narrowed(w)
                &&& f.height == narrowed(h)
                &&& !f.visible
                &&& f.bg_color == (Color { r: 230, g: 230, b: 230, a: 255 })
                &&& !f.maximized
                &&& !f.fullscreen
                &&& f.startposition@ == "centerscreen"@
                &&& f.resizable
                &&& f.position is None
                &&& f.border
                &&& f.controls_order@ == Seq::<String>::empty()
                &&& *final(ui) == (Ui {
                    forms: final(ui).forms,
                    form_visibilities: final(ui).form_visibilities,
                    ..*old(ui)
                })
            },
            (Value::String(_), Value::Number(_), _) => fails_with(r, expects("createform"@, "a number for height"@))
                && *final(ui) == *old(ui),
            (Value::String(_), _, _) => fails_with(r, expects("createform"@, "a number for width"@))
                && *final(ui) == *old(ui),
            _ => fails_with(r, expects("createform"@, "a string for title"@)) && *final(ui) == *old(ui),
        },
{
    if args.len() != 3 {
        return Err(arity_error("createform", "3 arguments", args.len()));
    }
    let title = match &args[0] {
        Value::String(s) => s.clone(),
        _ => return Err(expects_error("createform", "a string for title")),
    };
    let width = match &args[1] {
        Value::Number(n) => number_to_single(*n),
        _ => return Err(expects_error("createform", "a number for width")),
    };
    let height = match &args[2] {
        Value::Number(n) => number_to_single(*n),
        _ => return Err(expects_error("createform", "a number for height")),
    };
    let id = new_identifier();
    let settings = FormSettings {
        title,
        width,
        height,
        visible: false,
        bg_color: Color { r: 230, g: 230, b: 230, a: 255 },
        maximized: false,
        fullscreen: false,
        startposition: text("centerscreen"),
        resizable: true,
        position: None,
        border: true,
        controls_order: Vec::new(),
    };
    ui.forms.insert(id.clone(), settings);
    ui.form_visibilities.insert(id.clone(), false);
    Ok(Value::FormObject(id))
}

/// The settings of a control with text, read from the arguments from `off`
/// on: position, size, autosize, font name, size and weight, and colours.
pub open spec fn styled_from(
    c: ControlSettings,
    args: Seq<Value>,
    off: int,
    w: u32,
    h: u32,
    auto: bool,
    back: Color,
) -> bool {
    &&& c.x == arg_single(args, off, SINGLE_ZERO, SINGLE_ZERO)
    &&& c.y == arg_single(args, off + 1, SINGLE_ZERO, SINGLE_ZERO)
    &&& c.width == arg_single(args, off + 2, w, w)
    &&& c.height == arg_single(args, off + 3, h, h)
    &&& c.autosize == arg_flag(args, off + 4, auto)
    &&& c.fontname@ == arg_text(args, off + 5, "Proportional"@)
    &&& c.fontsize == arg_single(args, off + 6, SIZE_14, SIZE_14)
    &&& c.fontweight@ == arg_text(args, off + 7, "regular"@)
    &&& c.forecolor == arg_color(args, off + 8, black())
    &&& c.backcolor == arg_color(args, off + 9, back)
}

/// Reads the style of a control with text from the arguments from `off` on.
fn styled_control(
    args: &Vec<Value>,
    off: usize,
    kind: &str,
    form: &String,
    txt: String,
    w: u32,
    h: u32,
    auto: bool,
    back: Color,
) -> (c: ControlSettings)
    requires
        off + 9 < usize::MAX,
    ensures
        styled_from(c, args@, off as int, w, h, auto, back),
        plain_rest(c),
        c.control_type@ == kind@,
        c.form_id@ == form@,
        c.text == txt,
        c.dock == DockStyle::NoDock,
        !c.use_as_default_panel,
        c.callback is None,
        c.group is None,
        !c.checked,
        c.cursor@ == "default"@,
        c.text_alignment == TextAlign::LeftTop,
        c.padding == (0u32, 0u32, 0u32, 0u32),
{
    let mut c = ControlSettings::new(text(kind), form.clone());
    c.text = txt;
    c.x = opt_single(args, off, SINGLE_ZERO, SINGLE_ZERO);
    c.y = opt_single(args, off + 1, SINGLE_ZERO, SINGLE_ZERO);
    c.width = opt_single(args, off + 2, w, w);
    c.height = opt_single(args, off + 3, h, h);
    c.autosize = opt_flag(args, off + 4, auto);
    c.fontname = opt_text(args, off + 5, "Proportional");
    c.fontsize = opt_single(args, off + 6, SIZE_14, SIZE_14);
    c.fontweight = opt_text(args, off + 7, "regular");
    c.forecolor = opt_color(args, off + 8, Color { r: 0, g: 0, b: 0, a: 255 });
    c.backcolor = opt_color(args, off + 9, back);
    c
}

/// The result of a creation that passed its checks: a fresh text
/// identifier, for a control added to the form that the call names.
pub open spec fn created(before: Ui, after: Ui, args: Seq<Value>, r: Result<Value, String>) -> bool {
    r matches Ok(Value::String(id)) && control_added(before, after, parent_arg(args), id)
}

/// The new control of a successful creation.
pub open spec fn new_control(after: Ui, r: Result<Value, String>) -> ControlSettings {
    match r {
        Ok(Value::String(id)) => after.controls@[id@],
        _ => after.controls@[Seq::empty()],
    }
}

/// The text that the second argument gives.
pub open spec fn text_arg(args: Seq<Value>) -> String {
    args[1]->String_0
}

/// `createlabel(form, text, [x, y, width, height, autosize, fontname,
/// fontsize, fontweight, forecolor, backcolor])`.
pub fn createlabel(ui: &mut Ui, args: Vec<Value>) -> (r: Result<Value, String>)
    ensures
        match creation_error(args@, "createlabel"@, 2, 12,
            "2-12 arguments (form_id, text, [x, y, width, height, autosize, fontname, fontsize, fontweight, forecolor, backcolor])"@) {
            Some(m) => fails_with(r, m) && *final(ui) == *old(ui),
            None => if !(args@[1] is String) {
                fails_with(r, expects("createlabel"@, "a string for text"@)) && *final(ui) == *old(ui)
            } else if !old(ui).forms@.contains_key(parent_arg(args@)) {
                fails_with(r, "Parent form not found"@) && *final(ui) == *old(ui)
            } else {
                let c = new_control(*final(ui), r);
                &&& created(*old(ui), *final(ui), args@, r)
                &&& c.control_type@ == "label"@
                &&& c.form_id@ == parent_arg(args@)
                &&& c.text == text_arg(args@)
                &&& styled_from(c, args@, 2, SIZE_100, SIZE_20, true, transparent())
                &&& plain_rest(c)
                &&& c.text_alignment == TextAlign::LeftTop
                &&& c.padding == (0u32, 0u32, 0u32, 0u32)
                &&& c.callback is None && c.cursor@ == "default"@ && !c.checked && c.group is None
                &&& *final(ui) == (Ui { controls: final(ui).controls, forms: final(ui).forms, ..*old(ui) })
            },
        },
{
    if args.len() < 2 || args.len() > 12 {
        return Err(
            arity_error(
                "createlabel",
                "2-12 arguments (form_id, text, [x, y, width, height, autosize, fontname, fontsize, fontweight, forecolor, backcolor])",
                args.len(),
            ),
        );
    }
    let form = match &args[0] {
        Value::FormObject(id) => id.clone(),
        _ => return Err(expects_error("createlabel", "a Form identifier")),
    };
    let txt = match &args[1] {
        Value::String(s) => s.clone(),
        _ => return Err(expects_error("createlabel", "a string for text")),
    };
    if ui.forms.find(&form).is_none() {
        return Err(text("Parent form not found"));
    }
    let c = styled_control(&args, 2, "label", &form, txt, SIZE_100, SIZE_20, true, Color { r: 0, g: 0, b: 0, a: 0 });
    let id = add_control(ui, &form, c);
    Ok(Value::String(id))
}

/// `createtextbox(form, text, [x, y, width, height, autosize, fontname,
/// fontsize, fontweight, forecolor, backcolor])`.
pub fn createtextbox(ui: &mut Ui, args: Vec<Value>) -> (r: Result<Value, String>)
    ensures
        match creation_error(args@, "createtextbox"@, 2, 12,
            "2-12 arguments (form_id, text, [x, y, width, height, autosize, fontname, fontsize, fontweight, forecolor, backcolor])"@) {
            Some(m) => fails_with(r, m) && *final(ui) == *old(ui),
            None => if !(args@[1] is String) {
                fails_with(r, expects("createtextbox"@, "a string for text"@)) && *final(ui) == *old(ui)
            } else if !old(ui).forms@.contains_key(parent_arg(args@)) {
                fails_with(r, "Parent form not found"@) && *final(ui) == *old(ui)
            } else {
                let c = new_control(*final(ui), r);
                &&& created(*old(ui), *final(ui), args@, r)
                &&& c.control_type@ == "textbox"@
                &&& c.form_id@ == parent_arg(args@)
                &&& c.text == text_arg(args@)
                &&& styled_from(c, args@, 2, SIZE_150, SIZE_30, false, Color { r: 255, g: 255, b: 255, a: 255 })
                &&& plain_rest(c)
                &&& c.text_alignment == TextAlign::LeftCenter
                &&& c.padding == (SIZE_5, SIZE_5, SIZE_5, SIZE_5)
                &&& c.callback is None && c.cursor@ == "default"@ && !c.checked && c.group is None
                &&& *final(ui) == (Ui { controls: final(ui).controls, forms: final(ui).forms, ..*old(ui) })
            },
        },
{
    if args.len() < 2 || args.len() > 12 {
        return Err(
            arity_error(
                "createtextbox",
                "2-12 arguments (form_id, text, [x, y, width, height, autosize, fontname, fontsize, fontweight, forecolor, backcolor])",
                args.len(),
            ),
        );
    }
    let form = match &args[0] {
        Value::FormObject(id) => id.clone(),
        _ => return Err(expects_error("createtextbox", "a Form identifier")),
    };
    let txt = match &args[1] {
        Value::String(s) => s.clone(),
        _ => return Err(expects_error("createtextbox", "a string for text")),
    };
    if ui.forms.find(&form).is_none() {
        return Err(text("Parent form not found"));
    }
    let mut c = styled_control(
        &args,
        2,
        "textbox",
        &form,
        txt,
        SIZE_150,
        SIZE_30,
        false,
        Color { r: 255, g: 255, b: 255, a: 255 },
    );
    c.text_alignment = TextAlign::LeftCenter;
    c.padding = (SIZE_5, SIZE_5, SIZE_5, SIZE_5);
    let id = add_control(ui, &form, c);
    Ok(Value::String(id))
}

/// `createcheckbox(form, text, [x, y, width, height, autosize, fontname,
/// fontsize, fontweight, forecolor, backcolor, checked])`.
pub fn createcheckbox(ui: &mut Ui, args: Vec<Value>) -> (r: Result<Value, String>)
    ensures
        match creation_error(args@, "createcheckbox"@, 2, 13,
            "2-13 arguments (form_id, text, [x, y, width, height, autosize, fontname, fontsize, fontweight, forecolor, backcolor, checked])"@) {
            Some(m) => fails_with(r, m) && *final(ui) == *old(ui),
            None => if !(args@[1] is String) {
                fails_with(r, expects("createcheckbox"@, "a string for text"@)) && *final(ui) == *old(ui)
            } else if !old(ui).forms@.contains_key(parent_arg(args@)) {
                fails_with(r, "Parent form not found"@) && *final(ui) == *old(ui)
            } else {
                let c = new_control(*final(ui), r);
                &&& created(*old(ui), *final(ui), args@, r)
                &&& c.control_type@ == "checkbox"@
                &&& c.form_id@ == parent_arg(args@)
                &&& c.text == text_arg(args@)
                &&& styled_from(c, args@, 2, SIZE_100, SIZE_20, true, transparent())
                &&& plain_rest(c)
                &&& c.text_alignment == TextAlign::LeftCenter
                &&& c.padding == (0u32, 0u32, 0u32, 0u32)
                &&& c.checked == arg_flag(args@, 12, false)
                &&& c.callback is None && c.cursor@ == "default"@ && c.group is None
                &&& *final(ui) == (Ui { controls: final(ui).controls, forms: final(ui).forms, ..*old(ui) })
            },
        },
{
    if args.len() < 2 || args.len() > 13 {
        return Err(
            arity_error(
                "createcheckbox",
                "2-13 arguments (form_id, text, [x, y, width, height, autosize, fontname, fontsize, fontweight, forecolor, backcolor, checked])",
                args.len(),
            ),
        );
    }
    let form = match &args[0] {
        Value::FormObject(id) => id.clone(),
        _ => return Err(expects_error("createcheckbox", "a Form identifier")),
    };
    let txt = match &args[1] {
        Value::String(s) => s.clone(),
        _ => return Err(expects_error("createcheckbox", "a string for text")),
    };
    if ui.forms.find(&form).is_none() {
        return Err(text("Parent form not found"));
    }
    let mut c = styled_control(&args, 2, "checkbox", &form, txt, SIZE_100, SIZE_20, true, Color { r: 0, g: 0, b: 0, a: 0 });
    c.text_alignment = TextAlign::LeftCenter;
    c.checked = opt_flag(&args, 12, false);
    let id = add_control(ui, &form, c);
    Ok(Value::String(id))
}

/// `createbutton(form, text, [callback, x, y, width, height, autosize,
/// fontname, fontsize, fontweight, forecolor, backcolor])`.
pub fn createbutton(ui: &mut Ui, args: Vec<Value>) -> (r: Result<Value, String>)
    ensures
        match creation_error(args@, "createbutton"@, 2, 13,
            "2-13 arguments (form_id, text, [callback, x, y, width, height, autosize, fontname, fontsize, fontweight, forecolor, backcolor])"@) {
            Some(m) => fails_with(r, m) && *final(ui) == *old(ui),
            None => if !(args@[1] is String) {
                fails_with(r, expects("createbutton"@, "a string for text"@)) && *final(ui) == *old(ui)
            } else if !old(ui).forms@.contains_key(parent_arg(args@)) {
                fails_with(r, "Parent form not found"@) && *final(ui) == *old(ui)
            } else {
                let c = new_control(*final(ui), r);
                &&& created(*old(ui), *final(ui), args@, r)
                &&& c.control_type@ == "button"@
                &&& c.form_id@ == parent_arg(args@)
                &&& c.text == text_arg(args@)
                &&& styled_from(c, args@, 3, SIZE_100, SIZE_30, false, Color { r: 220, g: 220, b: 220, a: 255 })
                &&& plain_rest(c)
                &&& c.text_alignment == TextAlign::CenterCenter
                &&& c.padding == (SIZE_5, SIZE_5, SIZE_5, SIZE_5)
                &&& c.callback == (if args.len() > 2 { Some(args@[2]) } else { None })
                &&& c.cursor@ == "Hand"@ && !c.checked && c.group is None
                &&& *final(ui) == (Ui { controls: final(ui).controls, forms: final(ui).forms, ..*old(ui) })
            },
        },
{
    if args.len() < 2 || args.len() > 13 {
        return Err(
            arity_error(
                "createbutton",
                "2-13 arguments (form_id, text, [callback, x, y, width, height, autosize, fontname, fontsize, fontweight, forecolor, backcolor])",
                args.len(),
            ),
        );
    }
    let form = match &args[0] {
        Value::FormObject(id) => id.clone(),
        _ => return Err(expects_error("createbutton", "a Form identifier")),
    };
    let txt = match &args[1] {
        Value::String(s) => s.clone(),
        _ => return Err(expects_error("createbutton", "a string for text")),
    };
    if ui.forms.find(&form).is_none() {
        return Err(text("Parent form not found"));
    }
    let mut c = styled_control(
        &args,
        3,
        "button",
        &form,
        txt,
        SIZE_100,
        SIZE_30,
        false,
        Color { r: 220, g: 220, b: 220, a: 255 },
    );
    c.text_alignment = TextAlign::CenterCenter;
    c.padding = (SIZE_5, SIZE_5, SIZE_5, SIZE_5);
    c.cursor = text("Hand");
    let mut args = args;
    if args.len() > 2 {
        let mut cb = Value::Null;
        std::mem::swap(&mut cb, &mut args[2]);
        c.callback = Some(cb);
    }
    let id = add_control(ui, &form, c);
    Ok(Value::String(id))
}

/// `createradiobox(form, text, group, [x, y, width, height, autosize,
/// fontname, fontsize, fontweight, forecolor, backcolor, checked])`: a radio
/// box created checked becomes the one selected in its group.
pub fn createradiobox(ui: &mut Ui, args: Vec<Value>) -> (r: Result<Value, String>)
    ensures
        match creation_error(args@, "createradiobox"@, 3, 14,
            "3-14 arguments (form_id, text, group, [x, y, width, height, autosize, fontname, fontsize, fontweight, forecolor, backcolor, checked])"@) {
            Some(m) => fails_with(r, m) && *final(ui) == *old(ui),
            None => if !(args@[1] is String) {
                fails_with(r, expects("createradiobox"@, "a string for text"@)) && *final(ui) == *old(ui)
            } else if !(args@[2] is String) {
                fails_with(r, expects("createradiobox"@, "a string for group"@)) && *final(ui) == *old(ui)
            } else if !old(ui).forms@.contains_key(parent_arg(args@)) {
                fails_with(r, "Parent form not found"@) && *final(ui) == *old(ui)
            } else {
                let c = new_control(*final(ui), r);
                let form = parent_arg(args@);
                let group = args@[2]->String_0;
                &&& created(*old(ui), *final(ui), args@, r)
                &&& c.control_type@ == "radiobox"@
                &&& c.form_id@ == form
                &&& c.text == text_arg(args@)
                &&& styled_from(c, args@, 3, SIZE_100, SIZE_20, true, transparent())
                &&& plain_rest(c)
                &&& c.text_alignment == TextAlign::LeftCenter
                &&& c.padding == (0u32, 0u32, 0u32, 0u32)
                &&& c.checked == arg_flag(args@, 13, false)
                &&& c.group == Some(group)
                &&& c.callback is None && c.cursor@ == "default"@
                &&& if c.checked {
                    &&& final(ui).radio_selections@ == old(ui).radio_selections@.insert(
                        form,
                        final(ui).radio_selections@[form],
                    )
                    &&& final(ui).radio_selections@[form]@ == (if old(ui).radio_selections@.contains_key(form) {
                        old(ui).radio_selections@[form]@
                    } else {
                        Map::empty()
                    }).insert(group@, r->Ok_0->String_0)
                } else {
                    final(ui).radio_selections == old(ui).radio_selections
                }
                &&& *final(ui) == (Ui {
                    controls: final(ui).controls,
                    forms: final(ui).forms,
                    radio_selections: final(ui).radio_selections,
                    ..*old(ui)
                })
            },
        },
{
    if args.len() < 3 || args.len() > 14 {
        return Err(
            arity_error(
                "createradiobox",
                "3-14 arguments (form_id, text, group, [x, y, width, height, autosize, fontname, fontsize, fontweight, forecolor, backcolor, checked])",
                args.len(),
            ),
        );
    }
    let form = match &args[0] {
        Value::FormObject(id) => id.clone(),
        _ => return Err(expects_error("createradiobox", "a Form identifier")),
    };
    let txt = match &args[1] {
        Value::String(s) => s.clone(),
        _ => return Err(expects_error("createradiobox", "a string for text")),
    };
    let group = match &args[2] {
        Value::String(s) => s.clone(),
        _ => return Err(expects_error("createradiobox", "a string for group")),
    };
    if ui.forms.find(&form).is_none() {
        return Err(text("Parent form not found"));
    }
    let mut c = styled_control(&args, 3, "radiobox", &form, txt, SIZE_100, SIZE_20, true, Color { r: 0, g: 0, b: 0, a: 0 });
    c.text_alignment = TextAlign::LeftCenter;
    let checked = opt_flag(&args, 13, false);
    c.checked = checked;
    c.group = Some(group.clone());
    let id = add_control(ui, &form, c);
    if checked {
        match ui.radio_selections.find(&form) {
            Some(s) => {
                let chosen = ui.radio_selections.value_mut(s);
                chosen.insert(group, id.clone());
            },
            None => {
                let mut chosen = Registry::new();
                chosen.insert(group, id.clone());
                ui.radio_selections.insert(form, chosen);
            },
        }
    }
    Ok(Value::String(id))
}

/// `createtimer([interval, callback])`: a stopped timer; the interval is a
/// whole number of milliseconds, 1000 when it is missing or not a number.
pub fn createtimer(ui: &mut Ui, args: Vec<Value>) -> (r: Result<Value, String>)
    ensures
        args.len() > 2 ==> fails_with(r, arity_message("createtimer"@, "0-2 arguments ([interval, callback])"@, args.len() as nat))
            && *final(ui) == *old(ui),
        args.len() <= 2 ==> (r matches Ok(Value::String(id)) && {
            let t = final(ui).timers@[id@];
            &&& is_uuid_text(id@)
            &&& final(ui).timers@ == old(ui).timers@.insert(id@, t)
            &&& !t.enabled
            &&& t.last_tick is None
            &&& t.interval == (if args.len() >= 1 && args@[0] is Number {
                saturating_u32(args@[0]->Number_0) as u32
            } else {
                1000u32
            })
            &&& t.callback == (if args.len() == 2 { Some(args@[1]) } else { None })
            &&& *final(ui) == (Ui { timers: final(ui).timers, ..*old(ui) })
        }),
{
    if args.len() > 2 {
        return Err(arity_error("createtimer", "0-2 arguments ([interval, callback])", args.len()));
    }
    let interval: u32 = if args.len() >= 1 {
        match &args[0] {
            Value::Number(n) => number_to_u32(*n),
            _ => 1000,
        }
    } else {
        1000
    };
    let mut args = args;
    let callback = if args.len() == 2 {
        args.pop()
    } else {
        None
    };
    let id = new_identifier();
    ui.timers.insert(id.clone(), new_timer(interval, callback));
    Ok(Value::String(id))
}

/// The settings that the controls without text get: the defaults, placed
/// and sized as given, on the given background.
pub open spec fn plain_control(c: ControlSettings, kind: Seq<char>, form: Seq<char>, x: u32, y: u32, w: u32, h: u32, back: Color) -> bool {
    &&& c.control_type@ == kind
    &&& c.form_id@ == form
    &&& c.x == x && c.y == y && c.width == w && c.height == h
    &&& c.backcolor == back
    &&& plain_rest(c)
    &&& plain_style(c)
}

pub(crate) fn plain(kind: &str, form: &String, x: u32, y: u32, w: u32, h: u32, back: Color) -> (c: ControlSettings)
    ensures
        plain_control(c, kind@, form@, x, y, w, h, back),
{
    let mut c = ControlSettings::new(text(kind), form.clone());
    c.x = x;
    c.y = y;
    c.width = w;
    c.height = h;
    c.backcolor = back;
    c
}

/// `createpicturebox(form, [x, y, width, height])`: an empty picture box.
pub fn createpicturebox(ui: &mut Ui, args: Vec<Value>) -> (r: Result<Value, String>)
    ensures
        match creation_error(args@, "createpicturebox"@, 1, 5, "1-5 arguments (form_id, [x, y, width, height])"@) {
            Some(m) => fails_with(r, m) && *final(ui) == *old(ui),
            None => if !old(ui).forms@.contains_key(parent_arg(args@)) {
                fails_with(r, "Parent form not found"@) && *final(ui) == *old(ui)
            } else {
                let id = r->Ok_0->String_0;
                &&& created(*old(ui), *final(ui), args@, r)
                &&& plain_control(
                    new_control(*final(ui), r),
                    "picturebox"@,
                    parent_arg(args@),
                    arg_single(args@, 1, SINGLE_ZERO, SINGLE_ZERO),
                    arg_single(args@, 2, SINGLE_ZERO, SINGLE_ZERO),
                    arg_single(args@, 3, SIZE_100, SIZE_100),
                    arg_single(args@, 4, SIZE_100, SIZE_100),
                    Color { r: 255, g: 255, b: 255, a: 255 },
                )
                &&& final(ui).pictureboxes@ == old(ui).pictureboxes@.insert(
                    id@,
                    final(ui).pictureboxes@[id@],
                )
                &&& final(ui).pictureboxes@[id@].image_path is None
                &&& final(ui).pictureboxes@[id@].size_mode == crate::ui::SizeMode::Normal
                &&& !final(ui).pictureboxes@[id@].texture_loaded
                &&& *final(ui) == (Ui {
                    controls: final(ui).controls,
                    forms: final(ui).forms,
                    pictureboxes: final(ui).pictureboxes,
                    ..*old(ui)
                })
            },
        },
{
    if args.len() < 1 || args.len() > 5 {
        return Err(arity_error("createpicturebox", "1-5 arguments (form_id, [x, y, width, height])", args.len()));
    }
    let form = match &args[0] {
        Value::FormObject(id) => id.clone(),
        _ => return Err(expects_error("createpicturebox", "a Form identifier")),
    };
    if ui.forms.find(&form).is_none() {
        return Err(text("Parent form not found"));
    }
    let c = plain(
        "picturebox",
        &form,
        opt_single(&args, 1, SINGLE_ZERO, SINGLE_ZERO),
        opt_single(&args, 2, SINGLE_ZERO, SINGLE_ZERO),
        opt_single(&args, 3, SIZE_100, SIZE_100),
        opt_single(&args, 4, SIZE_100, SIZE_100),
        Color { r: 255, g: 255, b: 255, a: 255 },
    );
    let id = add_control(ui, &form, c);
    ui.pictureboxes.insert(
        id.clone(),
        PictureBoxState { image_path: None, size_mode: crate::ui::SizeMode::Normal, texture_loaded: false },
    );
    Ok(Value::String(id))
}

/// `createprogressbar(form, [x, y, width, height])`: an empty blue solid bar
/// from 0 to 100.
pub fn createprogressbar(ui: &mut Ui, args: Vec<Value>) -> (r: Result<Value, String>)
    ensures
        match creation_error(args@, "createprogressbar"@, 1, 5, "1-5 arguments (form_id, [x, y, width, height])"@) {
            Some(m) => fails_with(r, m) && *final(ui) == *old(ui),
            None => if !old(ui).forms@.contains_key(parent_arg(args@)) {
                fails_with(r, "Parent form not found"@) && *final(ui) == *old(ui)
            } else {
                let id = r->Ok_0->String_0;
                &&& created(*old(ui), *final(ui), args@, r)
                &&& plain_control(
                    new_control(*final(ui), r),
                    "progressbar"@,
                    parent_arg(args@),
                    arg_single(args@, 1, SINGLE_ZERO, SINGLE_ZERO),
                    arg_single(args@, 2, SINGLE_ZERO, SINGLE_ZERO),
                    arg_single(args@, 3, SIZE_150, SIZE_150),
                    arg_single(args@, 4, SIZE_20, SIZE_20),
                    Color { r: 160, g: 160, b: 160, a: 255 },
                )
                &&& final(ui).progressbars@ == old(ui).progressbars@.insert(
                    id@,
                    ProgressBarState {
                        value: SINGLE_ZERO,
                        min: SINGLE_ZERO,
                        max: SIZE_100,
                        bar_color: Color { r: 0, g: 0, b: 255, a: 255 },
                        style: crate::ui::BarStyle::Solid,
                    },
                )
                &&& *final(ui) == (Ui {
                    controls: final(ui).controls,
                    forms: final(ui).forms,
                    progressbars: final(ui).progressbars,
                    ..*old(ui)
                })
            },
        },
{
    if args.len() < 1 || args.len() > 5 {
        return Err(arity_error("createprogressbar", "1-5 arguments (form_id, [x, y, width, height])", args.len()));
    }
    let form = match &args[0] {
        Value::FormObject(id) => id.clone(),
        _ => return Err(expects_error("createprogressbar", "a Form identifier")),
    };
    if ui.forms.find(&form).is_none() {
        return Err(text("Parent form not found"));
    }
    let c = plain(
        "progressbar",
        &form,
        opt_single(&args, 1, SINGLE_ZERO, SINGLE_ZERO),
        opt_single(&args, 2, SINGLE_ZERO, SINGLE_ZERO),
        opt_single(&args, 3, SIZE_150, SIZE_150),
        opt_single(&args, 4, SIZE_20, SIZE_20),
        Color { r: 160, g: 160, b: 160, a: 255 },
    );
    let id = add_control(ui, &form, c);
    ui.progressbars.insert(
        id.clone(),
        ProgressBarState {
            value: SINGLE_ZERO,
            min: SINGLE_ZERO,
            max: SIZE_100,
            bar_color: Color { r: 0, g: 0, b: 255, a: 255 },
            style: crate::ui::BarStyle::Solid,
        },
    );
    Ok(Value::String(id))
}

/// The orientation that a (lower-case) name stands for.
pub open spec fn orientation_of(s: Seq<char>) -> Option<Orientation> {
    if s == "horizontal"@ {
        Some(Orientation::Horizontal)
    } else if s == "vertical"@ {
        Some(Orientation::Vertical)
    } else {
        None
    }
}

/// `createscrollbar(form, orientation, [x, y, width, height])`: a bar from 0
/// to 100 at 0, long along its orientation.
pub fn createscrollbar(ui: &mut Ui, args: Vec<Value>) -> (r: Result<Value, String>)
    ensures
        match creation_error(args@, "createscrollbar"@, 2, 6, "2-6 arguments (form_id, orientation, [x, y, width, height])"@) {
            Some(m) => fails_with(r, m) && *final(ui) == *old(ui),
            None => match args@[1] {
                Value::String(s) => match orientation_of(lowercase_text(s@)) {
                    None => fails_with(r, "createscrollbar() expects 'horizontal' or 'vertical'"@) && *final(ui) == *old(ui),
                    Some(o) => if !old(ui).forms@.contains_key(parent_arg(args@)) {
                        fails_with(r, "Parent form not found"@) && *final(ui) == *old(ui)
                    } else {
                        let id = r->Ok_0->String_0;
                        let long_w = if o == Orientation::Horizontal { SIZE_100 } else { SIZE_20 };
                        let long_h = if o == Orientation::Vertical { SIZE_100 } else { SIZE_20 };
                        &&& created(*old(ui), *final(ui), args@, r)
                        &&& plain_control(
                            new_control(*final(ui), r),
                            "scrollbar"@,
                            parent_arg(args@),
                            arg_single(args@, 2, SINGLE_ZERO, SINGLE_ZERO),
                            arg_single(args@, 3, SINGLE_ZERO, SINGLE_ZERO),
                            arg_single(args@, 4, long_w, SIZE_20),
                            arg_single(args@, 5, long_h, SIZE_20),
                            Color { r: 220, g: 220, b: 220, a: 255 },
                        )
                        &&& final(ui).scrollbars@ == old(ui).scrollbars@.insert(
                            id@,
                            ScrollBarState {
                                value: SINGLE_ZERO,
                                min: SINGLE_ZERO,
                                max: SIZE_100,
                                large_change: 0x4120_0000,
                                small_change: 0x3f80_0000,
                                orientation: o,
                            },
                        )
                        &&& *final(ui) == (Ui {
                            controls: final(ui).controls,
                            forms: final(ui).forms,
                            scrollbars: final(ui).scrollbars,
                            ..*old(ui)
                        })
                    },
                },
                _ => fails_with(r, expects("createscrollbar"@, "a string for orientation"@)) && *final(ui) == *old(ui),
            },
        },
{
    if args.len() < 2 || args.len() > 6 {
        return Err(arity_error("createscrollbar", "2-6 arguments (form_id, orientation, [x, y, width, height])", args.len()));
    }
    let form = match &args[0] {
        Value::FormObject(id) => id.clone(),
        _ => return Err(expects_error("createscrollbar", "a Form identifier")),
    };
    let o = match &args[1] {
        Value::String(s) => {
            let low = lowercase(s);
            if same_text(&low, "horizontal") {
                Orientation::Horizontal
            } else if same_text(&low, "vertical") {
                Orientation::Vertical
            } else {
                return Err(text("createscrollbar() expects 'horizontal' or 'vertical'"));
            }
        },
        _ => return Err(expects_error("createscrollbar", "a string for orientation")),
    };
    if ui.forms.find(&form).is_none() {
        return Err(text("Parent form not found"));
    }
    let long_w = match o {
        Orientation::Horizontal => SIZE_100,
        Orientation::Vertical => SIZE_20,
    };
    let long_h = match o {
        Orientation::Vertical => SIZE_100,
        Orientation::Horizontal => SIZE_20,
    };
    let c = plain(
        "scrollbar",
        &form,
        opt_single(&args, 2, SINGLE_ZERO, SINGLE_ZERO),
        opt_single(&args, 3, SINGLE_ZERO, SINGLE_ZERO),
        opt_single(&args, 4, long_w, SIZE_20),
        opt_single(&args, 5, long_h, SIZE_20),
        Color { r: 220, g: 220, b: 220, a: 255 },
    );
    let id = add_control(ui, &form, c);
    ui.scrollbars.insert(
        id.clone(),
        ScrollBarState {
            value: SINGLE_ZERO,
            min: SINGLE_ZERO,
            max: SIZE_100,
            large_change: 0x4120_0000,
            small_change: 0x3f80_0000,
            orientation: o,
        },
    );
    Ok(Value::String(id))
}

} // verus!
