//! Sliders, rich texts, tool bars, status bars, image buttons and colour
//! dialogs, and the texts and alignment of controls.

use vstd::prelude::*;
use crate::containers::{boxed, made, place_from, white};
use crate::create::{
    add_control_as, arg_single, arg_text, control_added, creation_error, new_identifier, opt_single, opt_text,
    orientation_of, parent_arg, SIZE_100, SIZE_20, SIZE_200, SIZE_30, SIZE_300,
};
use crate::gauges::SINGLE_ZERO;
use crate::number::{number_to_usize, saturating_usize};
use crate::text::{arity_error, arity_message, decimal, fails_with, same_text, text};
use crate::ui::{
    expects, expects_error, lowercase, lowercase_text, transparent, Color, ColorDialogMode, ColorDialogState,
    ControlSettings, DockStyle, FormSettings, ImageButtonState, Orientation, RichTextState, SliderState,
    StatusBarState, TextAlign, ToolbarItem, ToolbarState, Ui, color_string, color_text,
};
use crate::value::Value;

verus! {

/// The light grey of sliders, tool bars and image buttons.
pub open spec fn pale_grey() -> Color {
    Color { r: 220, g: 220, b: 220, a: 255 }
}

fn made_control(ui: &mut Ui, form: &String, c: ControlSettings) -> (id: String)
    requires
        old(ui).forms@.contains_key(form@),
    ensures
        control_added(*old(ui), *final(ui), form@, id),
        final(ui).controls@[id@] == c,
        *final(ui) == (Ui { controls: final(ui).controls, forms: final(ui).forms, ..*old(ui) }),
{
    let id = new_identifier();
    add_control_as(ui, form, id.clone(), c);
    id
}

fn plain_box(kind: &str, form: &String, txt: String, place: (u32, u32, u32, u32), back: Color, border: bool, dock: DockStyle)
    -> (c: ControlSettings)
    ensures
        boxed(c, kind@, form@, txt@, place, back, (border, false), SINGLE_ZERO, dock, false, "horizontal"@, "solid"@),
{
    crate::containers::boxed_control(kind, form, txt, place, back, (border, false), SINGLE_ZERO, dock, false,
        text("horizontal"), text("solid"))
}

/// `create_slider(form, orientation, [x, y, width, height])`: a slider from
/// 0 to 100 at 0.
pub fn create_slider(ui: &mut Ui, args: Vec<Value>) -> (r: Result<Value, String>)
    ensures
        match creation_error(args@, "create_slider"@, 2, 6, "2-6 arguments (form_id, orientation, [x, y, width, height])"@) {
            Some(m) => fails_with(r, m) && *final(ui) == *old(ui),
            None => match args@[1] {
                Value::String(s) => match orientation_of(lowercase_text(s@)) {
                    None => fails_with(r, "orientation must be 'horizontal' or 'vertical'"@) && *final(ui) == *old(ui),
                    Some(o) => if !old(ui).forms@.contains_key(parent_arg(args@)) {
                        fails_with(r, "Parent form not found"@) && *final(ui) == *old(ui)
                    } else {
                        let id = r->Ok_0->String_0@;
                        &&& r matches Ok(Value::String(i)) && control_added(*old(ui), *final(ui), parent_arg(args@), i)
                        &&& boxed(made(*final(ui), r), "slider"@, parent_arg(args@), Seq::empty(),
                            (arg_single(args@, 2, SINGLE_ZERO, SINGLE_ZERO), arg_single(args@, 3, SINGLE_ZERO, SINGLE_ZERO),
                            arg_single(args@, 4, SIZE_100, SIZE_100), arg_single(args@, 5, SIZE_20, SIZE_20)),
                            pale_grey(), (false, false), SINGLE_ZERO, DockStyle::NoDock, false, "horizontal"@, "solid"@)
                        &&& final(ui).sliders@ == old(ui).sliders@.insert(
                            id,
                            SliderState { value: SINGLE_ZERO, min: SINGLE_ZERO, max: SIZE_100, orientation: o },
                        )
                        &&& *final(ui) == (Ui {
                            controls: final(ui).controls,
                            forms: final(ui).forms,
                            sliders: final(ui).sliders,
                            ..*old(ui)
                        })
                    },
                },
                _ => fails_with(r, "orientation must be a string"@) && *final(ui) == *old(ui),
            },
        },
{
    if args.len() < 2 || args.len() > 6 {
        return Err(arity_error("create_slider", "2-6 arguments (form_id, orientation, [x, y, width, height])", args.len()));
    }
    let form = match &args[0] {
        Value::FormObject(id) => id.clone(),
        _ => return Err(expects_error("create_slider", "a Form identifier")),
    };
    let o = match &args[1] {
        Value::String(s) => {
            let low = lowercase(s);
            if same_text(&low, "horizontal") {
                Orientation::Horizontal
            } else if same_text(&low, "vertical") {
                Orientation::Vertical
            } else {
                return Err(text("orientation must be 'horizontal' or 'vertical'"));
            }
        },
        _ => return Err(text("orientation must be a string")),
    };
    if ui.forms.find(&form).is_none() {
        return Err(text("Parent form not found"));
    }
    let place = (
        opt_single(&args, 2, SINGLE_ZERO, SINGLE_ZERO),
        opt_single(&args, 3, SINGLE_ZERO, SINGLE_ZERO),
        opt_single(&args, 4, SIZE_100, SIZE_100),
        opt_single(&args, 5, SIZE_20, SIZE_20),
    );
    let c = plain_box("slider", &form, String::new(), place, Color { r: 220, g: 220, b: 220, a: 255 }, false, DockStyle::NoDock);
    let id = made_control(ui, &form, c);
    ui.sliders.insert(id.clone(), SliderState { value: SINGLE_ZERO, min: SINGLE_ZERO, max: SIZE_100, orientation: o });
    Ok(Value::String(id))
}

/// The result and effect of a creation that needs the form and reads its
/// place from arguments 1 to 4.
pub open spec fn placed_creation(
    before: Ui,
    after: Ui,
    args: Seq<Value>,
    name: Seq<char>,
    arity: Seq<char>,
    hi: nat,
    r: Result<Value, String>,
    made_ok: spec_fn(Ui, Ui, Seq<char>) -> bool,
) -> bool {
    match creation_error(args, name, 1, hi, arity) {
        Some(m) => fails_with(r, m) && after == before,
        None => if !before.forms@.contains_key(parent_arg(args)) {
            fails_with(r, "Parent form not found"@) && after == before
        } else {
            &&& r matches Ok(Value::String(i)) && control_added(before, after, parent_arg(args), i)
            &&& made_ok(before, after, r->Ok_0->String_0@)
        },
    }
}

/// `create_richtext(form, [x, y, width, height])`: an empty, bordered, white rich text.
pub fn create_richtext(ui: &mut Ui, args: Vec<Value>) -> (r: Result<Value, String>)
    ensures
        placed_creation(*old(ui), *final(ui), args@, "create_richtext"@, "1-5 arguments (form_id, [x, y, width, height])"@, 5, r,
            |before: Ui, after: Ui, id: Seq<char>| {
                &&& boxed(after.controls@[id], "richtext"@, parent_arg(args@), Seq::empty(),
                    place_from(args@, SIZE_200, SIZE_100), white(), (true, false), SINGLE_ZERO, DockStyle::NoDock, false,
                    "horizontal"@, "solid"@)
                &&& after.richtexts@ == before.richtexts@.insert(id, after.richtexts@[id])
                &&& after.richtexts@[id].text@ == Seq::<char>::empty()
                &&& after.richtexts@[id].formats@ == Seq::<(usize, usize, bool)>::empty()
                &&& after == (Ui { controls: after.controls, forms: after.forms, richtexts: after.richtexts, ..before })
            }),
{
    if args.len() < 1 || args.len() > 5 {
        return Err(arity_error("create_richtext", "1-5 arguments (form_id, [x, y, width, height])", args.len()));
    }
    let form = match &args[0] {
        Value::FormObject(id) => id.clone(),
        _ => return Err(expects_error("create_richtext", "a Form identifier")),
    };
    if ui.forms.find(&form).is_none() {
        return Err(text("Parent form not found"));
    }
    let place = (
        opt_single(&args, 1, SINGLE_ZERO, SINGLE_ZERO),
        opt_single(&args, 2, SINGLE_ZERO, SINGLE_ZERO),
        opt_single(&args, 3, SIZE_200, SIZE_200),
        opt_single(&args, 4, SIZE_100, SIZE_100),
    );
    let c = plain_box("richtext", &form, String::new(), place, Color { r: 255, g: 255, b: 255, a: 255 }, true, DockStyle::NoDock);
    let id = made_control(ui, &form, c);
    ui.richtexts.insert(id.clone(), RichTextState { text: String::new(), formats: Vec::new() });
    Ok(Value::String(id))
}

/// `create_toolbar(form, [x, y, width])`: an empty bar, 30 high, along the top.
pub fn create_toolbar(ui: &mut Ui, args: Vec<Value>) -> (r: Result<Value, String>)
    ensures
        placed_creation(*old(ui), *final(ui), args@, "create_toolbar"@, "1-4 arguments (form_id, [x, y, width])"@, 4, r,
            |before: Ui, after: Ui, id: Seq<char>| {
                &&& boxed(after.controls@[id], "toolbar"@, parent_arg(args@), Seq::empty(),
                    (arg_single(args@, 1, SINGLE_ZERO, SINGLE_ZERO), arg_single(args@, 2, SINGLE_ZERO, SINGLE_ZERO),
                    arg_single(args@, 3, SIZE_300, SIZE_300), SIZE_30), pale_grey(), (false, false), SINGLE_ZERO,
                    DockStyle::Top, false, "horizontal"@, "solid"@)
                &&& after.toolbars@ == before.toolbars@.insert(id, after.toolbars@[id])
                &&& after.toolbars@[id].items@.len() == 0
                &&& after == (Ui { controls: after.controls, forms: after.forms, toolbars: after.toolbars, ..before })
            }),
{
    if args.len() < 1 || args.len() > 4 {
        return Err(arity_error("create_toolbar", "1-4 arguments (form_id, [x, y, width])", args.len()));
    }
    let form = match &args[0] {
        Value::FormObject(id) => id.clone(),
        _ => return Err(expects_error("create_toolbar", "a Form identifier")),
    };
    if ui.forms.find(&form).is_none() {
        return Err(text("Parent form not found"));
    }
    let place = (
        opt_single(&args, 1, SINGLE_ZERO, SINGLE_ZERO),
        opt_single(&args, 2, SINGLE_ZERO, SINGLE_ZERO),
        opt_single(&args, 3, SIZE_300, SIZE_300),
        SIZE_30,
    );
    let c = plain_box("toolbar", &form, String::new(), place, Color { r: 220, g: 220, b: 220, a: 255 }, false, DockStyle::Top);
    let id = made_control(ui, &form, c);
    ui.toolbars.insert(id.clone(), ToolbarState { items: Vec::new() });
    Ok(Value::String(id))
}

/// `create_statusbar(form, [text, x, y])`: a blue bar, 20 high and 300 wide,
/// along the bottom, saying "Ready" unless told otherwise; its state starts
/// with "Ready" whatever it shows.
pub fn create_statusbar(ui: &mut Ui, args: Vec<Value>) -> (r: Result<Value, String>)
    ensures
        placed_creation(*old(ui), *final(ui), args@, "create_statusbar"@, "1-4 arguments (form_id, [text, x, y, width])"@, 4, r,
            |before: Ui, after: Ui, id: Seq<char>| {
                &&& boxed(after.controls@[id], "statusbar"@, parent_arg(args@), arg_text(args@, 1, "Ready"@),
                    (arg_single(args@, 2, SINGLE_ZERO, SINGLE_ZERO), arg_single(args@, 3, SINGLE_ZERO, SINGLE_ZERO),
                    SIZE_300, SIZE_20), Color { r: 0, g: 0, b: 255, a: 255 }, (false, false), SINGLE_ZERO,
                    DockStyle::Bottom, false, "horizontal"@, "solid"@)
                &&& after.statusbars@ == before.statusbars@.insert(id, after.statusbars@[id])
                &&& after.statusbars@[id].text@ == "Ready"@
                &&& after == (Ui { controls: after.controls, forms: after.forms, statusbars: after.statusbars, ..before })
            }),
{
    if args.len() < 1 || args.len() > 4 {
        return Err(arity_error("create_statusbar", "1-4 arguments (form_id, [text, x, y, width])", args.len()));
    }
    let form = match &args[0] {
        Value::FormObject(id) => id.clone(),
        _ => return Err(expects_error("create_statusbar", "a Form identifier")),
    };
    if ui.forms.find(&form).is_none() {
        return Err(text("Parent form not found"));
    }
    let txt = opt_text(&args, 1, "Ready");
    let place = (
        opt_single(&args, 2, SINGLE_ZERO, SINGLE_ZERO),
        opt_single(&args, 3, SINGLE_ZERO, SINGLE_ZERO),
        SIZE_300,
        SIZE_20,
    );
    let c = plain_box("statusbar", &form, txt, place, Color { r: 0, g: 0, b: 255, a: 255 }, false, DockStyle::Bottom);
    let id = made_control(ui, &form, c);
    ui.statusbars.insert(id.clone(), StatusBarState { text: text("Ready") });
    Ok(Value::String(id))
}

/// `create_imagebutton(form, [x, y, width, height])`: a button, 50 by 50,
/// with no image yet.
pub fn create_imagebutton(ui: &mut Ui, args: Vec<Value>) -> (r: Result<Value, String>)
    ensures
        placed_creation(*old(ui), *final(ui), args@, "create_imagebutton"@, "1-5 arguments (form_id, [x, y, width, height])"@, 5, r,
            |before: Ui, after: Ui, id: Seq<char>| {
                &&& boxed(after.controls@[id], "imagebutton"@, parent_arg(args@), Seq::empty(),
                    place_from(args@, 0x4248_0000, 0x4248_0000), pale_grey(), (false, false), SINGLE_ZERO,
                    DockStyle::NoDock, false, "horizontal"@, "solid"@)
                &&& after.imagebuttons@ == before.imagebuttons@.insert(id, after.imagebuttons@[id])
                &&& after.imagebuttons@[id].image_path is None
                &&& !after.imagebuttons@[id].texture_loaded
                &&& after == (Ui { controls: after.controls, forms: after.forms, imagebuttons: after.imagebuttons, ..before })
            }),
{
    if args.len() < 1 || args.len() > 5 {
        return Err(arity_error("create_imagebutton", "1-5 arguments (form_id, [x, y, width, height])", args.len()));
    }
    let form = match &args[0] {
        Value::FormObject(id) => id.clone(),
        _ => return Err(expects_error("create_imagebutton", "a Form identifier")),
    };
    if ui.forms.find(&form).is_none() {
        return Err(text("Parent form not found"));
    }
    let place = (
        opt_single(&args, 1, SINGLE_ZERO, SINGLE_ZERO),
        opt_single(&args, 2, SINGLE_ZERO, SINGLE_ZERO),
        opt_single(&args, 3, 0x4248_0000, 0x4248_0000),
        opt_single(&args, 4, 0x4248_0000, 0x4248_0000),
    );
    let c = plain_box("imagebutton", &form, String::new(), place, Color { r: 220, g: 220, b: 220, a: 255 }, false,
        DockStyle::NoDock);
    let id = made_control(ui, &form, c);
    ui.imagebuttons.insert(id.clone(), ImageButtonState { image_path: None, texture_loaded: false });
    Ok(Value::String(id))
}

/// A colour dialog as it starts: white, closed, basic.
pub open spec fn fresh_color_dialog(d: ColorDialogState) -> bool {
    &&& d.selected_color == white()
    &&& d.temp_color == white()
    &&& !d.is_open && !d.confirmed && !d.show_advanced && !d.show_web_colors
    &&& d.mode == ColorDialogMode::Basic
}

/// `create_colordialog(form)`: a closed colour dialog, showing white.
pub fn create_colordialog(ui: &mut Ui, args: Vec<Value>) -> (r: Result<Value, String>)
    ensures
        placed_creation(*old(ui), *final(ui), args@, "create_colordialog"@, "1 argument (form_id)"@, 1, r,
            |before: Ui, after: Ui, id: Seq<char>| {
                &&& boxed(after.controls@[id], "colordialog"@, parent_arg(args@), Seq::empty(),
                    (SINGLE_ZERO, SINGLE_ZERO, SINGLE_ZERO, SINGLE_ZERO), transparent(), (false, false), SINGLE_ZERO,
                    DockStyle::NoDock, false, "horizontal"@, "solid"@)
                &&& after.colordialogs@ == before.colordialogs@.insert(id, after.colordialogs@[id])
                &&& fresh_color_dialog(after.colordialogs@[id])
                &&& after == (Ui { controls: after.controls, forms: after.forms, colordialogs: after.colordialogs, ..before })
            }),
{
    if args.len() != 1 {
        return Err(arity_error("create_colordialog", "1 argument (form_id)", args.len()));
    }
    let form = match &args[0] {
        Value::FormObject(id) => id.clone(),
        _ => return Err(expects_error("create_colordialog", "a Form identifier")),
    };
    if ui.forms.find(&form).is_none() {
        return Err(text("Parent form not found"));
    }
    let c = plain_box("colordialog", &form, String::new(), (SINGLE_ZERO, SINGLE_ZERO, SINGLE_ZERO, SINGLE_ZERO),
        Color { r: 0, g: 0, b: 0, a: 0 }, false, DockStyle::NoDock);
    let id = made_control(ui, &form, c);
    let white_c = Color { r: 255, g: 255, b: 255, a: 255 };
    ui.colordialogs.insert(
        id.clone(),
        ColorDialogState {
            selected_color: white_c,
            temp_color: white_c,
            is_open: false,
            confirmed: false,
            show_advanced: false,
            show_web_colors: false,
            mode: ColorDialogMode::Basic,
        },
    );
    Ok(Value::String(id))
}

/// `richtext_set_format(richtext, start, end, bold, italic)`: marks the
/// stretch of the text from byte `start` to byte `end` italic or not (the
/// bold flag is read and checked, and has no effect).
pub fn richtext_set_format(ui: &mut Ui, args: Vec<Value>) -> (r: Result<Value, String>)
    ensures
        args.len() != 5 ==> fails_with(r, arity_message("richtext_set_format"@,
            "5 arguments (richtext_id, start, end, bold, italic)"@, args.len() as nat)) && *final(ui) == *old(ui),
        args.len() == 5 ==> match (args@[0], args@[1], args@[2], args@[3], args@[4]) {
            (Value::String(rs), Value::Number(sn), Value::Number(en), Value::Bool(_), Value::Bool(it)) => {
                let id = rs@;
                let start = saturating_usize(sn);
                let end = saturating_usize(en);
                if !old(ui).richtexts@.contains_key(id) {
                    fails_with(r, "RichText not found"@) && *final(ui) == *old(ui)
                } else {
                    let st = old(ui).richtexts@[id];
                    if end > (vstd::utf8::encode_utf8(st.text@).len() as usize) || start > end {
                        fails_with(r, "Invalid range"@) && *final(ui) == *old(ui)
                    } else {
                        let st2 = final(ui).richtexts@[id];
                        &&& r == Ok::<Value, String>(Value::Null)
                        &&& final(ui).richtexts@ == old(ui).richtexts@.insert(id, st2)
                        &&& st2.text == st.text
                        &&& st2.formats@ == st.formats@.push((start as usize, end as usize, it))
                        &&& *final(ui) == (Ui { richtexts: final(ui).richtexts, ..*old(ui) })
                    }
                }
            },
            (Value::String(_), Value::Number(_), Value::Number(_), Value::Bool(_), _) =>
                fails_with(r, "italic must be a boolean"@) && *final(ui) == *old(ui),
            (Value::String(_), Value::Number(_), Value::Number(_), _, _) =>
                fails_with(r, "bold must be a boolean"@) && *final(ui) == *old(ui),
            (Value::String(_), Value::Number(_), _, _, _) => fails_with(r, "end must be a number"@) && *final(ui) == *old(ui),
            (Value::String(_), _, _, _, _) => fails_with(r, "start must be a number"@) && *final(ui) == *old(ui),
            _ => fails_with(r, "richtext_id must be a string"@) && *final(ui) == *old(ui),
        },
{
    if args.len() != 5 {
        return Err(arity_error("richtext_set_format", "5 arguments (richtext_id, start, end, bold, italic)", args.len()));
    }
    let id = match &args[0] {
        Value::String(s) => s,
        _ => return Err(text("richtext_id must be a string")),
    };
    let start = match &args[1] {
        Value::Number(n) => number_to_usize(*n),
        _ => return Err(text("start must be a number")),
    };
    let end = match &args[2] {
        Value::Number(n) => number_to_usize(*n),
        _ => return Err(text("end must be a number")),
    };
    match &args[3] {
        Value::Bool(_) => {},
        _ => return Err(text("bold must be a boolean")),
    }
    let italic = match &args[4] {
        Value::Bool(b) => *b,
        _ => return Err(text("italic must be a boolean")),
    };
    match ui.richtexts.find(id) {
        Some(i) => {
            let len = ui.richtexts.value_at(i).text.as_str().len();
            if end > len || start > end {
                return Err(text("Invalid range"));
            }
            let st = ui.richtexts.value_mut(i);
            st.formats.push((start, end, italic));
            Ok(Value::Null)
        },
        None => Err(text("RichText not found")),
    }
}

/// `toolbar_add_item(toolbar, text, [icon, callback])`: a new item at the end
/// of the bar; an icon that is not a text is none.
pub fn toolbar_add_item(ui: &mut Ui, args: Vec<Value>) -> (r: Result<Value, String>)
    ensures
        (args.len() < 2 || args.len() > 4) ==> fails_with(r, arity_message("toolbar_add_item"@,
            "2-4 arguments (toolbar_id, text, [icon, callback])"@, args.len() as nat)) && *final(ui) == *old(ui),
        2 <= args.len() <= 4 ==> match (args@[0], args@[1]) {
            (Value::String(ts), Value::String(label)) => if old(ui).toolbars@.contains_key(ts@) {
                let st2 = final(ui).toolbars@[ts@];
                let item = st2.items@.last();
                &&& r == Ok::<Value, String>(Value::Null)
                &&& final(ui).toolbars@ == old(ui).toolbars@.insert(ts@, st2)
                &&& st2.items@.len() == old(ui).toolbars@[ts@].items@.len() + 1
                &&& st2.items@.drop_last() == old(ui).toolbars@[ts@].items@
                &&& item.text@ == label@
                &&& item.icon == if args.len() > 2 && args@[2] is String { Some(args@[2]->String_0) } else { None }
                &&& item.callback == if args.len() > 3 { Some(args@[3]) } else { None }
                &&& *final(ui) == (Ui { toolbars: final(ui).toolbars, ..*old(ui) })
            } else {
                fails_with(r, "Toolbar not found"@) && *final(ui) == *old(ui)
            },
            (Value::String(_), _) => fails_with(r, "text must be a string"@) && *final(ui) == *old(ui),
            _ => fails_with(r, "toolbar_id must be a string"@) && *final(ui) == *old(ui),
        },
{
    if args.len() < 2 || args.len() > 4 {
        return Err(arity_error("toolbar_add_item", "2-4 arguments (toolbar_id, text, [icon, callback])", args.len()));
    }
    let id = match &args[0] {
        Value::String(s) => s.clone(),
        _ => return Err(text("toolbar_id must be a string")),
    };
    let label = match &args[1] {
        Value::String(s) => s.clone(),
        _ => return Err(text("text must be a string")),
    };
    let icon = if args.len() > 2 {
        match &args[2] {
            Value::String(s) => Some(s.clone()),
            _ => None,
        }
    } else {
        None
    };
    let slot = match ui.toolbars.find(&id) {
        Some(i) => i,
        None => return Err(text("Toolbar not found")),
    };
    let mut args = args;
    let callback = if args.len() > 3 {
        args.pop()
    } else {
        None
    };
    let st = ui.toolbars.value_mut(slot);
    let ghost before = st.items@;
    st.items.push(ToolbarItem { text: label, icon, callback });
    proof {
        assert(st.items@.drop_last() =~= before);
    }
    Ok(Value::Null)
}

/// `colordialog_show(dialog)`: the colour dialog opens.
pub fn colordialog_show(ui: &mut Ui, args: Vec<Value>) -> (r: Result<Value, String>)
    ensures
        args.len() != 1 ==> fails_with(r, arity_message("colordialog_show"@, "1 argument"@, args.len() as nat))
            && *final(ui) == *old(ui),
        args.len() == 1 ==> match args@[0] {
            Value::String(ds) => if old(ui).colordialogs@.contains_key(ds@) {
                &&& r == Ok::<Value, String>(Value::Null)
                &&& final(ui).colordialogs@ == old(ui).colordialogs@.insert(
                    ds@,
                    ColorDialogState { is_open: true, ..old(ui).colordialogs@[ds@] },
                )
                &&& *final(ui) == (Ui { colordialogs: final(ui).colordialogs, ..*old(ui) })
            } else {
                fails_with(r, "ColorDialog not found"@) && *final(ui) == *old(ui)
            },
            _ => fails_with(r, "colordialog_id must be a string"@) && *final(ui) == *old(ui),
        },
{
    if args.len() != 1 {
        return Err(arity_error("colordialog_show", "1 argument", args.len()));
    }
    let id = match &args[0] {
        Value::String(s) => s,
        _ => return Err(text("colordialog_id must be a string")),
    };
    match ui.colordialogs.find(id) {
        Some(i) => {
            let d = ui.colordialogs.value_mut(i);
            d.is_open = true;
            Ok(Value::Null)
        },
        None => Err(text("ColorDialog not found")),
    }
}

pub open spec fn hex_digit_char(d: nat) -> char {
    seq!['0', '1', '2', '3', '4', '5', '6', '7', '8', '9', 'A', 'B', 'C', 'D', 'E', 'F'][d as int]
}

/// Two upper-case hexadecimal digits of a byte.
pub open spec fn hex2(b: u8) -> Seq<char> {
    seq![hex_digit_char((b / 16) as nat), hex_digit_char((b % 16) as nat)]
}

/// `"#RRGGBB"` in upper-case hexadecimal.
pub open spec fn hex_text(c: Color) -> Seq<char> {
    "#"@ + hex2(c.r) + hex2(c.g) + hex2(c.b)
}

fn hex_digit(d: u8) -> (s: &'static str)
    requires
        d < 16,
    ensures
        s@ == seq![hex_digit_char(d as nat)],
{
    proof {
        reveal_strlit("0");
        reveal_strlit("1");
        reveal_strlit("2");
        reveal_strlit("3");
        reveal_strlit("4");
        reveal_strlit("5");
        reveal_strlit("6");
        reveal_strlit("7");
        reveal_strlit("8");
        reveal_strlit("9");
        reveal_strlit("A");
        reveal_strlit("B");
        reveal_strlit("C");
        reveal_strlit("D");
        reveal_strlit("E");
        reveal_strlit("F");
    }
    match d {
        0 => "0",
        1 => "1",
        2 => "2",
        3 => "3",
        4 => "4",
        5 => "5",
        6 => "6",
        7 => "7",
        8 => "8",
        9 => "9",
        10 => "A",
        11 => "B",
        12 => "C",
        13 => "D",
        14 => "E",
        _ => "F",
    }
}

fn push_hex2(s: &mut String, b: u8)
    ensures
        final(s)@ == old(s)@ + hex2(b),
{
    s.append(hex_digit(b / 16));
    s.append(hex_digit(b % 16));
    proof {
        assert(final(s)@ =~= old(s)@ + hex2(b));
    }
}

fn hex_string(c: Color) -> (s: String)
    ensures
        s@ == hex_text(c),
{
    let mut s = text("#");
    push_hex2(&mut s, c.r);
    push_hex2(&mut s, c.g);
    push_hex2(&mut s, c.b);
    proof {
        assert(s@ =~= hex_text(c));
    }
    s
}

/// `colordialog_get_color(dialog, ["rgb" | "hex"])`: the colour chosen, as
/// `"r,g,b"` (the default) or `"#RRGGBB"`; the format is read without regard to case.
pub fn colordialog_get_color(ui: &Ui, args: Vec<Value>) -> (r: Result<Value, String>)
    ensures
        (args.len() < 1 || args.len() > 2) ==> fails_with(r, arity_message("colordialog_get_color"@, "1 or 2 arguments"@,
            args.len() as nat)),
        1 <= args.len() <= 2 ==> match args@[0] {
            Value::String(ds) => if args.len() == 2 && !(args@[1] is String) {
                fails_with(r, "Format argument must be a string (\"rgb\" or \"hex\")"@)
            } else if !ui.colordialogs@.contains_key(ds@) {
                fails_with(r, "ColorDialog not found"@)
            } else {
                let c = ui.colordialogs@[ds@].selected_color;
                let f = if args.len() == 2 { lowercase_text(args@[1]->String_0@) } else { "rgb"@ };
                if f == "hex"@ {
                    r matches Ok(Value::String(s)) && s@ == hex_text(c)
                } else if f == "rgb"@ {
                    r matches Ok(Value::String(s)) && s@ == color_text(c)
                } else {
                    fails_with(r, "Invalid format. Use \"rgb\" or \"hex\"."@)
                }
            },
            _ => fails_with(r, "colordialog_id must be a string"@),
        },
{
    if args.len() < 1 || args.len() > 2 {
        return Err(arity_error("colordialog_get_color", "1 or 2 arguments", args.len()));
    }
    let id = match &args[0] {
        Value::String(s) => s,
        _ => return Err(text("colordialog_id must be a string")),
    };
    let f = if args.len() == 2 {
        match &args[1] {
            Value::String(s) => lowercase(s),
            _ => return Err(text("Format argument must be a string (\"rgb\" or \"hex\")")),
        }
    } else {
        text("rgb")
    };
    match ui.colordialogs.get(id) {
        Some(d) => {
            let c = d.selected_color;
            if same_text(&f, "hex") {
                Ok(Value::String(hex_string(c)))
            } else if same_text(&f, "rgb") {
                Ok(Value::String(color_string(c)))
            } else {
                Err(text("Invalid format. Use \"rgb\" or \"hex\"."))
            }
        },
        None => Err(text("ColorDialog not found")),
    }
}

/// What `settext` does to the state that goes with a control of type `kind`:
/// a text box's new text is due on the window; a rich text or status bar
/// keeps the text in its state, when it has one.
pub open spec fn text_kept(before: Ui, after: Ui, kind: Seq<char>, id: String, t: String) -> bool {
    if kind == "textbox"@ {
        &&& after.text_updates_due@ == before.text_updates_due@.push((id, t))
        &&& after.richtexts == before.richtexts && after.statusbars == before.statusbars
    } else if kind == "richtext"@ && before.richtexts@.contains_key(id@) {
        &&& after.richtexts@ == before.richtexts@.insert(id@, RichTextState { text: t, ..before.richtexts@[id@] })
        &&& after.text_updates_due == before.text_updates_due && after.statusbars == before.statusbars
    } else if kind == "statusbar"@ && before.statusbars@.contains_key(id@) {
        &&& after.statusbars@ == before.statusbars@.insert(id@, StatusBarState { text: t })
        &&& after.text_updates_due == before.text_updates_due && after.richtexts == before.richtexts
    } else {
        after.text_updates_due == before.text_updates_due && after.richtexts == before.richtexts
            && after.statusbars == before.statusbars
    }
}

/// What `settext` does.
pub open spec fn text_set(before: Ui, after: Ui, args: Seq<Value>, r: Result<Value, String>) -> bool {
    &&& (args.len() != 2 ==> fails_with(r, arity_message("settext"@, "2 arguments (id, text)"@, args.len() as nat))
        && after == before)
    &&& (args.len() == 2 ==> match (args[0], args[1]) {
        (_, Value::Number(_)) | (_, Value::Bool(_)) | (_, Value::Null) | (_, Value::Array(_))
        | (_, Value::Dictionary(_)) | (_, Value::FormObject(_)) | (_, Value::BuiltinFunction(_))
        | (_, Value::Function(_)) | (_, Value::Figure(_)) => fails_with(r, "settext() expects a string for text"@) && after == before,
        (Value::String(ids), Value::String(t)) => if before.controls@.contains_key(ids@) {
            let c = before.controls@[ids@];
            &&& r == Ok::<Value, String>(Value::Null)
            &&& after.controls@ == before.controls@.insert(ids@, ControlSettings { text: t, ..c })
            &&& text_kept(before, after, c.control_type@, ids, t)
            &&& after == (Ui {
                controls: after.controls,
                richtexts: after.richtexts,
                statusbars: after.statusbars,
                text_updates_due: after.text_updates_due,
                ..before
            })
        } else {
            fails_with(r, "Control not found"@) && after == before
        },
        (Value::FormObject(fs), Value::String(t)) => if before.forms@.contains_key(fs@) {
            &&& r == Ok::<Value, String>(Value::Null)
            &&& after.forms@ == before.forms@.insert(fs@, FormSettings { title: t, ..before.forms@[fs@] })
            &&& after == (Ui { forms: after.forms, ..before })
        } else {
            fails_with(r, "Form not found"@) && after == before
        },
        _ => fails_with(r, "settext() expects a control identifier (string) or form identifier (FormObject)"@)
            && after == before,
    })
}

/// `settext(control or form, text)`: the text of a control, or the title of a form.
pub fn settext(ui: &mut Ui, args: Vec<Value>) -> (r: Result<Value, String>)
    ensures
        text_set(*old(ui), *final(ui), args@, r),
{
    if args.len() != 2 {
        return Err(arity_error("settext", "2 arguments (id, text)", args.len()));
    }
    let (a, b) = crate::value::take_two(args);
    let t = match b {
        Value::String(s) => s,
        _ => return Err(text("settext() expects a string for text")),
    };
    match a {
        Value::String(id) => {
            let slot = match ui.controls.find(&id) {
                Some(i) => i,
                None => return Err(text("Control not found")),
            };
            let kind = ui.controls.value_at(slot).control_type.clone();
            let c = ui.controls.value_mut(slot);
            c.text = t.clone();
            proof {
                reveal_strlit("textbox");
                reveal_strlit("richtext");
                reveal_strlit("statusbar");
                assert("textbox"@.len() == 7 && "richtext"@.len() == 8 && "statusbar"@.len() == 9);
            }
            if same_text(&kind, "textbox") {
                ui.text_updates_due.push((id, t));
            } else if same_text(&kind, "richtext") {
                match ui.richtexts.find(&id) {
                    Some(j) => {
                        let st = ui.richtexts.value_mut(j);
                        st.text = t;
                    },
                    None => {},
                }
            } else if same_text(&kind, "statusbar") {
                match ui.statusbars.find(&id) {
                    Some(j) => {
                        let st = ui.statusbars.value_mut(j);
                        st.text = t;
                    },
                    None => {},
                }
            }
            Ok(Value::Null)
        },
        Value::FormObject(fid) => match ui.forms.find(&fid) {
            Some(i) => {
                let f = ui.forms.value_mut(i);
                f.title = t;
                Ok(Value::Null)
            },
            None => Err(text("Form not found")),
        },
        _ => Err(text("settext() expects a control identifier (string) or form identifier (FormObject)")),
    }
}

/// What `gettext` gives.
pub open spec fn text_read(ui: Ui, args: Seq<Value>, r: Result<Value, String>) -> bool {
    &&& (args.len() != 1 ==> fails_with(r, arity_message("gettext"@, "1 argument (id)"@, args.len() as nat)))
    &&& (args.len() == 1 ==> match args[0] {
        Value::String(ids) => if !ui.controls@.contains_key(ids@) {
            fails_with(r, "Control not found"@)
        } else {
            let c = ui.controls@[ids@];
            if c.control_type@ == "richtext"@ {
                if ui.richtexts@.contains_key(ids@) {
                    r matches Ok(Value::String(s)) && s@ == ui.richtexts@[ids@].text@
                } else {
                    fails_with(r, "richtext not found in its state store"@)
                }
            } else if c.control_type@ == "statusbar"@ {
                if ui.statusbars@.contains_key(ids@) {
                    r matches Ok(Value::String(s)) && s@ == ui.statusbars@[ids@].text@
                } else {
                    fails_with(r, "statusbar not found in its state store"@)
                }
            } else {
                r matches Ok(Value::String(s)) && s@ == c.text@
            }
        },
        Value::FormObject(fs) => if ui.forms@.contains_key(fs@) {
            r matches Ok(Value::String(s)) && s@ == ui.forms@[fs@].title@
        } else {
            fails_with(r, "Form not found"@)
        },
        _ => fails_with(r, "gettext() expects a control identifier (string) or form identifier (FormObject)"@),
    })
}

/// `gettext(control or form)`: the text of a control (a rich text's or
/// status bar's from its state), or the title of a form.
pub fn gettext(ui: &Ui, args: Vec<Value>) -> (r: Result<Value, String>)
    ensures
        text_read(*ui, args@, r),
{
    if args.len() != 1 {
        return Err(arity_error("gettext", "1 argument (id)", args.len()));
    }
    match &args[0] {
        Value::String(id) => match ui.controls.get(id) {
            Some(c) => {
                if same_text(&c.control_type, "richtext") {
                    match ui.richtexts.get(id) {
                        Some(st) => Ok(Value::String(st.text.clone())),
                        None => Err(text("richtext not found in its state store")),
                    }
                } else if same_text(&c.control_type, "statusbar") {
                    match ui.statusbars.get(id) {
                        Some(st) => Ok(Value::String(st.text.clone())),
                        None => Err(text("statusbar not found in its state store")),
                    }
                } else {
                    Ok(Value::String(c.text.clone()))
                }
            },
            None => Err(text("Control not found")),
        },
        Value::FormObject(fid) => match ui.forms.get(fid) {
            Some(f) => Ok(Value::String(f.title.clone())),
            None => Err(text("Form not found")),
        },
        _ => Err(text("gettext() expects a control identifier (string) or form identifier (FormObject)")),
    }
}

/// The alignment that a name stands for.
pub open spec fn alignment_of(s: Seq<char>) -> Option<TextAlign> {
    if s == "topleft"@ {
        Some(TextAlign::LeftTop)
    } else if s == "topcenter"@ {
        Some(TextAlign::CenterTop)
    } else if s == "topright"@ {
        Some(TextAlign::RightTop)
    } else if s == "middleleft"@ {
        Some(TextAlign::LeftCenter)
    } else if s == "center"@ {
        Some(TextAlign::CenterCenter)
    } else if s == "middleright"@ {
        Some(TextAlign::RightCenter)
    } else if s == "bottomleft"@ {
        Some(TextAlign::LeftBottom)
    } else if s == "bottomcenter"@ {
        Some(TextAlign::CenterBottom)
    } else if s == "bottomright"@ {
        Some(TextAlign::RightBottom)
    } else {
        None
    }
}

fn parse_alignment(s: &String) -> (r: Option<TextAlign>)
    ensures
        r == alignment_of(s@),
{
    if same_text(s, "topleft") {
        Some(TextAlign::LeftTop)
    } else if same_text(s, "topcenter") {
        Some(TextAlign::CenterTop)
    } else if same_text(s, "topright") {
        Some(TextAlign::RightTop)
    } else if same_text(s, "middleleft") {
        Some(TextAlign::LeftCenter)
    } else if same_text(s, "center") {
        Some(TextAlign::CenterCenter)
    } else if same_text(s, "middleright") {
        Some(TextAlign::RightCenter)
    } else if same_text(s, "bottomleft") {
        Some(TextAlign::LeftBottom)
    } else if same_text(s, "bottomcenter") {
        Some(TextAlign::CenterBottom)
    } else if same_text(s, "bottomright") {
        Some(TextAlign::RightBottom)
    } else {
        None
    }
}

/// `set_text_alignment(control, name)`: where the text sits in the control.
pub fn set_text_alignment(ui: &mut Ui, args: Vec<Value>) -> (r: Result<Value, String>)
    ensures
        args.len() != 2 ==> fails_with(r, arity_message("set_text_alignment"@, "2 arguments"@, args.len() as nat))
            && *final(ui) == *old(ui),
        args.len() == 2 ==> match (args@[0], args@[1]) {
            (Value::String(ids), Value::String(s)) => match alignment_of(s@) {
                None => fails_with(r,
                    "Invalid alignment: use topleft, topcenter, topright, middleleft, center, middleright, bottomleft, bottomcenter, bottomright"@)
                    && *final(ui) == *old(ui),
                Some(a) => if old(ui).controls@.contains_key(ids@) {
                    &&& r == Ok::<Value, String>(Value::Null)
                    &&& final(ui).controls@ == old(ui).controls@.insert(
                        ids@,
                        ControlSettings { text_alignment: a, ..old(ui).controls@[ids@] },
                    )
                    &&& *final(ui) == old(ui).with_controls(final(ui).controls)
                } else {
                    fails_with(r, "Control not found"@) && *final(ui) == *old(ui)
                },
            },
            (Value::String(_), _) => fails_with(r, expects("set_text_alignment"@, "a string"@)) && *final(ui) == *old(ui),
            _ => fails_with(r, expects("set_text_alignment"@, "a control identifier"@)) && *final(ui) == *old(ui),
        },
{
    if args.len() != 2 {
        return Err(arity_error("set_text_alignment", "2 arguments", args.len()));
    }
    let id = match &args[0] {
        Value::String(id) => id,
        _ => return Err(expects_error("set_text_alignment", "a control identifier")),
    };
    let a = match &args[1] {
        Value::String(s) => match parse_alignment(s) {
            Some(a) => a,
            None => return Err(text(
                "Invalid alignment: use topleft, topcenter, topright, middleleft, center, middleright, bottomleft, bottomcenter, bottomright",
            )),
        },
        _ => return Err(expects_error("set_text_alignment", "a string")),
    };
    match ui.controls.find(id) {
        Some(i) => {
            let c = ui.controls.value_mut(i);
            c.text_alignment = a;
            Ok(Value::Null)
        },
        None => Err(text("Control not found")),
    }
}

} // verus!
