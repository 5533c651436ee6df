//! List boxes and combo boxes: their items, the item selected, and the text
//! that shows it.

use vstd::prelude::*;
use crate::array::is_count;
use crate::create::{
    add_control_as, arg_color, arg_single, arg_text, created, new_control, new_identifier, opt_color,
    opt_single, opt_text, parent_arg, SIZE_14, SIZE_150, SIZE_100, SIZE_30, SIZE_5,
};
use crate::render::{number_texts, shown_form, shown_string, writes_numbers};
use crate::gauges::SINGLE_ZERO;
use crate::number::{number_from_usize, number_to_usize, saturating_usize};
use crate::text::{arity_error, arity_message, fails_with, same_text, text};
use crate::ui::{
    black, expects, expects_error, Color, ControlSettings, DockStyle, ListState, TextAlign, Ui,
};
use crate::registry::Registry;
use crate::value::{copy_of, copy_value, Value};
use crate::widgets::{id_arg, id_call_error};

verus! {

/// The text that shows an item: its shown form, numbers written by `nt`.
pub open spec fn shown_text(v: Value, nt: spec_fn(u64) -> (Seq<char>, Seq<char>)) -> Seq<char> {
    shown_form(v, nt)
}

/// The items that a creation call gives: its second argument, when that is an array.
pub open spec fn list_arg_items(args: Seq<Value>) -> Seq<Value> {
    if args.len() > 1 && args[1] is Array {
        args[1]->Array_0@
    } else {
        Seq::empty()
    }
}

/// Where the optional arguments of a creation call start: after the items,
/// when they are given.
pub open spec fn list_arg_offset(args: Seq<Value>) -> int {
    if args.len() > 1 && args[1] is Array {
        2
    } else {
        1
    }
}

/// The index that optional argument `i` gives: a number cut to a whole
/// index, else 0.
pub open spec fn arg_index(args: Seq<Value>, i: int) -> usize {
    if i < args.len() && args[i] is Number {
        saturating_usize(args[i]->Number_0) as usize
    } else {
        0
    }
}

/// The text of the item selected, or nothing when there is no such item.
pub open spec fn selected_text(items: Seq<Value>, sel: usize, nt: spec_fn(u64) -> (Seq<char>, Seq<char>)) -> Seq<char> {
    if sel < items.len() {
        shown_text(items[sel as int], nt)
    } else {
        Seq::empty()
    }
}

/// The settings of a new list box or combo box `id`, read from the arguments
/// from `off` on: position, size, font, colours; white, bordered, padded by
/// 5, one empty child per item, in a group of its own.
pub open spec fn list_control(
    c: ControlSettings,
    kind: Seq<char>,
    form: Seq<char>,
    id: Seq<char>,
    args: Seq<Value>,
    off: int,
    h: u32,
    txt: Seq<char>,
    n: nat,
) -> bool {
    &&& c.control_type@ == kind
    &&& c.form_id@ == form
    &&& c.text@ == txt
    &&& c.x == arg_single(args, off, SINGLE_ZERO, SINGLE_ZERO)
    &&& c.y == arg_single(args, off + 1, SINGLE_ZERO, SINGLE_ZERO)
    &&& c.width == arg_single(args, off + 2, SIZE_150, SIZE_150)
    &&& c.height == arg_single(args, off + 3, h, h)
    &&& !c.autosize
    &&& c.fontname@ == arg_text(args, off + 4, "Proportional"@)
    &&& c.fontsize == arg_single(args, off + 5, SIZE_14, SIZE_14)
    &&& c.fontweight@ == arg_text(args, off + 6, "regular"@)
    &&& c.forecolor == arg_color(args, off + 7, black())
    &&& c.backcolor == arg_color(args, off + 8, Color { r: 255, g: 255, b: 255, a: 255 })
    &&& c.visible && c.enabled
    &&& c.text_alignment == TextAlign::LeftCenter
    &&& c.padding == (SIZE_5, SIZE_5, SIZE_5, SIZE_5)
    &&& c.margin == (0u32, 0u32, 0u32, 0u32)
    &&& c.layout_constraint is None
    &&& c.dock == DockStyle::NoDock
    &&& c.callback is None
    &&& c.treeview_on_events@ == Map::<Seq<char>, Option<Value>>::empty()
    &&& c.cursor@ == "default"@
    &&& !c.multiline && !c.checked
    &&& c.group matches Some(g) && g@ == id
    &&& c.children@.len() == n
    &&& forall|i: int| 0 <= i < n ==> (#[trigger] c.children@[i])@ == Seq::<char>::empty()
    &&& c.border && !c.shadow && !c.use_as_default_panel
    &&& c.orientation@ == "horizontal"@
    &&& c.border_style@ == "solid"@
}

fn opt_index(args: &Vec<Value>, i: usize) -> (r: usize)
    ensures
        r == arg_index(args@, i as int),
{
    if i < args.len() {
        match &args[i] {
            Value::Number(n) => number_to_usize(*n),
            _ => 0,
        }
    } else {
        0
    }
}

fn empty_children(n: usize) -> (v: Vec<String>)
    ensures
        v@.len() == n,
        forall|i: int| 0 <= i < n ==> (#[trigger] v@[i])@ == Seq::<char>::empty(),
{
    let mut v: Vec<String> = Vec::new();
    let mut i: usize = 0;
    while i < n
        invariant
            i <= n,
            v@.len() == i,
            forall|j: int| 0 <= j < i ==> (#[trigger] v@[j])@ == Seq::<char>::empty(),
        decreases n - i,
    {
        v.push(String::new());
        i = i + 1;
    }
    v
}

fn list_settings(
    args: &Vec<Value>,
    off: usize,
    kind: &str,
    form: &String,
    id: &String,
    h: u32,
    txt: String,
    n: usize,
) -> (c: ControlSettings)
    requires
        off + 10 < usize::MAX,
    ensures
        list_control(c, kind@, form@, id@, args@, off as int, h, txt@, n as nat),
{
    let mut c = ControlSettings::new(text(kind), form.clone());
    c.text = txt;
    c.x = opt_single(args, off, SINGLE_ZERO, SINGLE_ZERO);
    c.y = opt_single(args, off + 1, SINGLE_ZERO, SINGLE_ZERO);
    c.width = opt_single(args, off + 2, SIZE_150, SIZE_150);
    c.height = opt_single(args, off + 3, h, h);
    c.fontname = opt_text(args, off + 4, "Proportional");
    c.fontsize = opt_single(args, off + 5, SIZE_14, SIZE_14);
    c.fontweight = opt_text(args, off + 6, "regular");
    c.forecolor = opt_color(args, off + 7, Color { r: 0, g: 0, b: 0, a: 255 });
    c.backcolor = opt_color(args, off + 8, Color { r: 255, g: 255, b: 255, a: 255 });
    c.text_alignment = TextAlign::LeftCenter;
    c.padding = (SIZE_5, SIZE_5, SIZE_5, SIZE_5);
    c.group = Some(id.clone());
    c.children = empty_children(n);
    c.border = true;
    c
}

fn has_items(args: &Vec<Value>) -> (b: bool)
    ensures
        b == (args.len() > 1 && args@[1] is Array),
{
    args.len() > 1 && match &args[1] {
        Value::Array(_) => true,
        _ => false,
    }
}

/// Takes the items array out of the arguments of a creation call.
fn take_items(args: Vec<Value>) -> (items: Vec<Value>)
    ensures
        items@ == list_arg_items(args@),
{
    let mut args = args;
    if args.len() > 1 {
        match &args[1] {
            Value::Array(_) => {},
            _ => return Vec::new(),
        }
        match args.remove(1) {
            Value::Array(v) => v,
            _ => Vec::new(),
        }
    } else {
        Vec::new()
    }
}

/// `createlistbox(form, [items, x, y, width, height, fontname, fontsize,
/// fontweight, forecolor, backcolor, selected_index])`: the optional
/// arguments move up by one when the items are left out.
pub fn createlistbox<F: Fn(u64) -> (String, String)>(ui: &mut Ui, args: Vec<Value>, decimals: &F) -> (r: Result<Value, String>)
    requires
        writes_numbers(*decimals),
    ensures
        args.len() == 0 ==> fails_with(r, arity_message("createlistbox"@,
            "1-12 arguments (form_id, [items, x, y, width, height, fontname, fontsize, fontweight, forecolor, backcolor, selected_index])"@,
            0)) && *final(ui) == *old(ui),
        args.len() > 0 ==> if !(args@[0] is FormObject) {
            fails_with(r, expects("createlistbox"@, "a Form identifier"@)) && *final(ui) == *old(ui)
        } else if !old(ui).forms@.contains_key(parent_arg(args@)) {
            fails_with(r, "Parent form not found"@) && *final(ui) == *old(ui)
        } else {
            let items = list_arg_items(args@);
            let off = list_arg_offset(args@);
            let sel = arg_index(args@, off + 9);
            let id = r->Ok_0->String_0;
            let st = final(ui).listboxes@[id@];
            &&& created(*old(ui), *final(ui), args@, r)
            &&& list_control(new_control(*final(ui), r), "listbox"@, parent_arg(args@), id@, args@, off,
                SIZE_100, selected_text(items, sel, number_texts(*decimals)), items.len())
            &&& final(ui).listboxes@ == old(ui).listboxes@.insert(id@, st)
            &&& st.items@ == items
            &&& st.selected_index == sel
            &&& *final(ui) == (Ui {
                controls: final(ui).controls,
                forms: final(ui).forms,
                listboxes: final(ui).listboxes,
                ..*old(ui)
            })
        },
{
    if args.len() == 0 {
        return Err(
            arity_error(
                "createlistbox",
                "1-12 arguments (form_id, [items, x, y, width, height, fontname, fontsize, fontweight, forecolor, backcolor, selected_index])",
                0,
            ),
        );
    }
    let form = match &args[0] {
        Value::FormObject(id) => id.clone(),
        _ => return Err(expects_error("createlistbox", "a Form identifier")),
    };
    if ui.forms.find(&form).is_none() {
        return Err(text("Parent form not found"));
    }
    let off: usize = if has_items(&args) { 2 } else { 1 };
    let sel = opt_index(&args, off + 9);
    let (txt, n) = if off == 2 {
        match &args[1] {
            Value::Array(v) => (if sel < v.len() { shown_string(&v[sel], decimals) } else { String::new() }, v.len()),
            _ => (String::new(), 0),
        }
    } else {
        (String::new(), 0)
    };
    let id = new_identifier();
    let c = list_settings(&args, off, "listbox", &form, &id, SIZE_100, txt, n);
    add_control_as(ui, &form, id.clone(), c);
    let items = take_items(args);
    ui.listboxes.insert(id.clone(), ListState { items, selected_index: sel });
    Ok(Value::String(id))
}

/// The text box whose text a combo box starts with, when the argument names one.
pub open spec fn arg_textbox(args: Seq<Value>, i: int) -> Option<Seq<char>> {
    if i < args.len() && args[i] is String {
        Some(args[i]->String_0@)
    } else {
        None
    }
}

/// The first text of a combo box: that of the text box named, if any (empty
/// when no control has that identifier), else that of the item selected.
pub open spec fn combo_first_text(
    ui: Ui,
    tb: Option<Seq<char>>,
    items: Seq<Value>,
    sel: usize,
    nt: spec_fn(u64) -> (Seq<char>, Seq<char>),
) -> Seq<char> {
    match tb {
        Some(t) => if ui.controls@.contains_key(t) {
            ui.controls@[t].text@
        } else {
            Seq::empty()
        },
        None => selected_text(items, sel, nt),
    }
}

/// `createcombobox(form, [items, textbox_id, x, y, width, height, fontname,
/// fontsize, fontweight, forecolor, backcolor, selected_index])`: the optional
/// arguments move up by one when the items are left out.
pub fn createcombobox<F: Fn(u64) -> (String, String)>(ui: &mut Ui, args: Vec<Value>, decimals: &F) -> (r: Result<Value, String>)
    requires
        writes_numbers(*decimals),
    ensures
        args.len() == 0 ==> fails_with(r, arity_message("createcombobox"@,
            "2-13 arguments (form_id, [items, textbox_id, x, y, width, height, fontname, fontsize, fontweight, forecolor, backcolor, selected_index])"@,
            0)) && *final(ui) == *old(ui),
        args.len() > 0 ==> if !(args@[0] is FormObject) {
            fails_with(r, expects("createcombobox"@, "a Form identifier"@)) && *final(ui) == *old(ui)
        } else if !old(ui).forms@.contains_key(parent_arg(args@)) {
            fails_with(r, "Parent form not found"@) && *final(ui) == *old(ui)
        } else {
            let items = list_arg_items(args@);
            let off = list_arg_offset(args@);
            let sel = arg_index(args@, off + 10);
            let id = r->Ok_0->String_0;
            let st = final(ui).comboboxes@[id@];
            let first = combo_first_text(*old(ui), arg_textbox(args@, off), items, sel, number_texts(*decimals));
            &&& created(*old(ui), *final(ui), args@, r)
            &&& list_control(new_control(*final(ui), r), "combobox"@, parent_arg(args@), id@, args@, off + 1,
                SIZE_30, first, items.len())
            &&& final(ui).comboboxes@ == old(ui).comboboxes@.insert(id@, st)
            &&& st.items@ == items
            &&& st.selected_index == sel
            &&& *final(ui) == (Ui {
                controls: final(ui).controls,
                forms: final(ui).forms,
                comboboxes: final(ui).comboboxes,
                ..*old(ui)
            })
        },
{
    if args.len() == 0 {
        return Err(
            arity_error(
                "createcombobox",
                "2-13 arguments (form_id, [items, textbox_id, x, y, width, height, fontname, fontsize, fontweight, forecolor, backcolor, selected_index])",
                0,
            ),
        );
    }
    let form = match &args[0] {
        Value::FormObject(id) => id.clone(),
        _ => return Err(expects_error("createcombobox", "a Form identifier")),
    };
    if ui.forms.find(&form).is_none() {
        return Err(text("Parent form not found"));
    }
    let off: usize = if has_items(&args) { 2 } else { 1 };
    let sel = opt_index(&args, off + 10);
    let tb: Option<&String> = if off < args.len() {
        match &args[off] {
            Value::String(t) => Some(t),
            _ => None,
        }
    } else {
        None
    };
    let (sel_txt, n) = if off == 2 {
        match &args[1] {
            Value::Array(v) => (if sel < v.len() { shown_string(&v[sel], decimals) } else { String::new() }, v.len()),
            _ => (String::new(), 0),
        }
    } else {
        (String::new(), 0)
    };
    let txt = match tb {
        Some(t) => match ui.controls.get(t) {
            Some(c) => c.text.clone(),
            None => String::new(),
        },
        None => sel_txt,
    };
    let id = new_identifier();
    let c = list_settings(&args, off + 1, "combobox", &form, &id, SIZE_30, txt, n);
    add_control_as(ui, &form, id.clone(), c);
    let items = take_items(args);
    ui.comboboxes.insert(id.clone(), ListState { items, selected_index: sel });
    Ok(Value::String(id))
}

/// Which lists a control of type `t` keeps its items in: the combo boxes'
/// (`Some(true)`), the list boxes' (`Some(false)`), or none.
pub open spec fn list_kind(t: Seq<char>) -> Option<bool> {
    if t == "combobox"@ {
        Some(true)
    } else if t == "listbox"@ {
        Some(false)
    } else {
        None
    }
}

/// The lists of combo boxes or of list boxes.
pub open spec fn lists_of(ui: Ui, combo: bool) -> Map<Seq<char>, ListState> {
    if combo {
        ui.comboboxes@
    } else {
        ui.listboxes@
    }
}

/// The error when a control has no list.
pub open spec fn list_missing(combo: bool) -> Seq<char> {
    if combo {
        "ComboBox not found"@
    } else {
        "ListBox not found"@
    }
}

/// The lists of one kind have `st` under `id`, and nothing else changed in them.
pub open spec fn list_set(before: Ui, after: Ui, combo: bool, id: Seq<char>, st: ListState) -> bool {
    &&& lists_of(after, combo) == lists_of(before, combo).insert(id, st)
    &&& if combo {
        after.listboxes == before.listboxes
    } else {
        after.comboboxes == before.comboboxes
    }
}

fn list_kind_of(t: &String) -> (r: Option<bool>)
    ensures
        r == list_kind(t@),
{
    if same_text(t, "combobox") {
        Some(true)
    } else if same_text(t, "listbox") {
        Some(false)
    } else {
        None
    }
}

fn list_missing_error(combo: bool) -> (s: String)
    ensures
        s@ == list_missing(combo),
{
    if combo {
        text("ComboBox not found")
    } else {
        text("ListBox not found")
    }
}

/// The lists of one kind.
fn lists<'a>(ui: &'a Ui, combo: bool) -> (r: &'a Registry<ListState>)
    ensures
        r@ == lists_of(*ui, combo),
        combo ==> *r == ui.comboboxes,
        !combo ==> *r == ui.listboxes,
{
    if combo {
        &ui.comboboxes
    } else {
        &ui.listboxes
    }
}

/// What `get_selected_index` gives.
pub open spec fn index_read(ui: Ui, args: Seq<Value>, r: Result<Value, String>) -> bool {
    match id_call_error(args, 1, "get_selected_index"@, "1 argument"@, "a control identifier"@) {
        Some(m) => fails_with(r, m),
        None => {
            let id = id_arg(args);
            if !ui.controls@.contains_key(id) {
                fails_with(r, "Control not found"@)
            } else {
                match list_kind(ui.controls@[id].control_type@) {
                    None => fails_with(r, "Unsupported control type for get_selected_index"@),
                    Some(combo) => if lists_of(ui, combo).contains_key(id) {
                        r matches Ok(v) && is_count(v, lists_of(ui, combo)[id].selected_index as nat)
                    } else {
                        fails_with(r, list_missing(combo))
                    },
                }
            }
        },
    }
}

/// `get_selected_index(control)`: the index of the item selected in a list
/// box or combo box.
pub fn get_selected_index(ui: &Ui, args: Vec<Value>) -> (r: Result<Value, String>)
    ensures
        index_read(*ui, args@, r),
{
    if args.len() != 1 {
        return Err(arity_error("get_selected_index", "1 argument", args.len()));
    }
    let id = match &args[0] {
        Value::String(id) => id,
        _ => return Err(expects_error("get_selected_index", "a control identifier")),
    };
    let c = match ui.controls.get(id) {
        Some(c) => c,
        None => return Err(text("Control not found")),
    };
    let combo = match list_kind_of(&c.control_type) {
        Some(b) => b,
        None => return Err(text("Unsupported control type for get_selected_index")),
    };
    match lists(ui, combo).get(id) {
        Some(st) => Ok(Value::Number(number_from_usize(st.selected_index))),
        None => Err(list_missing_error(combo)),
    }
}

/// What `get_selected_text` gives.
pub open spec fn selection_text_read(ui: Ui, args: Seq<Value>, r: Result<Value, String>) -> bool {
    match id_call_error(args, 1, "get_selected_text"@, "1 argument"@, "a control identifier"@) {
        Some(m) => fails_with(r, m),
        None => {
            let id = id_arg(args);
            if !ui.controls@.contains_key(id) {
                fails_with(r, "Control not found"@)
            } else if list_kind(ui.controls@[id].control_type@) is Some {
                r matches Ok(Value::String(s)) && s@ == ui.controls@[id].text@
            } else {
                fails_with(r, "Unsupported control type for get_selected_text"@)
            }
        },
    }
}

/// `get_selected_text(control)`: the text of a list box or combo box.
pub fn get_selected_text(ui: &Ui, args: Vec<Value>) -> (r: Result<Value, String>)
    ensures
        selection_text_read(*ui, args@, r),
{
    if args.len() != 1 {
        return Err(arity_error("get_selected_text", "1 argument", args.len()));
    }
    let id = match &args[0] {
        Value::String(id) => id,
        _ => return Err(expects_error("get_selected_text", "a control identifier")),
    };
    match ui.controls.get(id) {
        Some(c) => match list_kind_of(&c.control_type) {
            Some(_) => Ok(Value::String(c.text.clone())),
            None => Err(text("Unsupported control type for get_selected_text")),
        },
        None => Err(text("Control not found")),
    }
}

/// The control `id` now shows the text `t`; nothing else of it changed.
pub open spec fn text_shown(before: Ui, after: Ui, id: Seq<char>, t: Seq<char>) -> bool {
    let c = after.controls@[id];
    &&& after.controls@ == before.controls@.insert(id, c)
    &&& c == (ControlSettings { text: c.text, ..before.controls@[id] })
    &&& c.text@ == t
}

/// Selects item `idx` of the list `id` of one kind, and shows its text on the control.
fn select_item(ui: &mut Ui, id: &String, combo: bool, idx: usize, t: String)
    requires
        lists_of(*old(ui), combo).contains_key(id@),
        old(ui).controls@.contains_key(id@),
    ensures
        list_set(*old(ui), *final(ui), combo, id@,
            ListState { selected_index: idx, ..lists_of(*old(ui), combo)[id@] }),
        text_shown(*old(ui), *final(ui), id@, t@),
        *final(ui) == (Ui {
            controls: final(ui).controls,
            comboboxes: final(ui).comboboxes,
            listboxes: final(ui).listboxes,
            ..*old(ui)
        }),
{
    if combo {
        match ui.comboboxes.find(id) {
            Some(s) => {
                let st = ui.comboboxes.value_mut(s);
                st.selected_index = idx;
            },
            None => {},
        }
    } else {
        match ui.listboxes.find(id) {
            Some(s) => {
                let st = ui.listboxes.value_mut(s);
                st.selected_index = idx;
            },
            None => {},
        }
    }
    match ui.controls.find(id) {
        Some(i) => {
            let c = ui.controls.value_mut(i);
            c.text = t;
        },
        None => {},
    }
}

/// What `set_selected_index` does.
pub open spec fn index_selected(
    before: Ui,
    after: Ui,
    args: Seq<Value>,
    r: Result<Value, String>,
    nt: spec_fn(u64) -> (Seq<char>, Seq<char>),
) -> bool {
    &&& (args.len() != 2 ==> fails_with(r, arity_message("set_selected_index"@, "2 arguments"@, args.len() as nat))
        && after == before)
    &&& (args.len() == 2 ==> match (args[0], args[1]) {
        (Value::String(ids), Value::Number(n)) => {
            let id = ids@;
            let idx = saturating_usize(n) as usize;
            if !before.controls@.contains_key(id) {
                fails_with(r, "Control not found"@) && after == before
            } else {
                match list_kind(before.controls@[id].control_type@) {
                    None => fails_with(r, "Unsupported control type for set_selected_index"@)
                        && after == before,
                    Some(combo) => if !lists_of(before, combo).contains_key(id) {
                        fails_with(r, list_missing(combo)) && after == before
                    } else {
                        let st = lists_of(before, combo)[id];
                        if idx >= st.items@.len() {
                            fails_with(r, "Index out of bounds"@) && after == before
                        } else {
                            &&& r == Ok::<Value, String>(Value::Null)
                            &&& list_set(before, after, combo, id, ListState { selected_index: idx, ..st })
                            &&& text_shown(before, after, id, shown_text(st.items@[idx as int], nt))
                            &&& after == (Ui {
                                controls: after.controls,
                                comboboxes: after.comboboxes,
                                listboxes: after.listboxes,
                                ..before
                            })
                        }
                    },
                }
            }
        },
        (Value::String(_), _) => fails_with(r, expects("set_selected_index"@, "a number"@))
            && after == before,
        _ => fails_with(r, expects("set_selected_index"@, "a control identifier"@)) && after == before,
    })
}

/// `set_selected_index(control, index)`: selects an item of a list box or
/// combo box and shows its text.
pub fn set_selected_index<F: Fn(u64) -> (String, String)>(ui: &mut Ui, args: Vec<Value>, decimals: &F) -> (r: Result<Value, String>)
    requires
        writes_numbers(*decimals),
    ensures
        index_selected(*old(ui), *final(ui), args@, r, number_texts(*decimals)),
{
    if args.len() != 2 {
        return Err(arity_error("set_selected_index", "2 arguments", args.len()));
    }
    let id = match &args[0] {
        Value::String(id) => id,
        _ => return Err(expects_error("set_selected_index", "a control identifier")),
    };
    let idx = match &args[1] {
        Value::Number(n) => number_to_usize(*n),
        _ => return Err(expects_error("set_selected_index", "a number")),
    };
    let combo = match ui.controls.get(id) {
        Some(c) => match list_kind_of(&c.control_type) {
            Some(b) => b,
            None => return Err(text("Unsupported control type for set_selected_index")),
        },
        None => return Err(text("Control not found")),
    };
    let t = match lists(ui, combo).get(id) {
        Some(st) => {
            if idx >= st.items.len() {
                return Err(text("Index out of bounds"));
            }
            shown_string(&st.items[idx], decimals)
        },
        None => return Err(list_missing_error(combo)),
    };
    select_item(ui, id, combo, idx, t);
    Ok(Value::Null)
}

/// `i` is the first item of `items` that shows the text `t`.
pub open spec fn is_first_shown(items: Seq<Value>, t: Seq<char>, i: int, nt: spec_fn(u64) -> (Seq<char>, Seq<char>)) -> bool {
    &&& 0 <= i < items.len()
    &&& shown_text(items[i], nt) == t
    &&& forall|j: int| 0 <= j < i ==> shown_text(#[trigger] items[j], nt) != t
}

/// The error when no item shows the text looked for.
pub open spec fn text_missing(combo: bool) -> Seq<char> {
    if combo {
        "Text not found in ComboBox items"@
    } else {
        "Text not found in ListBox items"@
    }
}

/// The index of the first item that shows `t`, if any.
fn find_shown<F: Fn(u64) -> (String, String)>(items: &Vec<Value>, t: &String, decimals: &F) -> (r: Option<usize>)
    requires
        writes_numbers(*decimals),
    ensures
        r matches Some(i) ==> is_first_shown(items@, t@, i as int, number_texts(*decimals)),
        r is None ==> forall|j: int|
            0 <= j < items@.len() ==> shown_text(#[trigger] items@[j], number_texts(*decimals)) != t@,
{
    let mut i: usize = 0;
    while i < items.len()
        invariant
            i <= items.len(),
            writes_numbers(*decimals),
            forall|j: int| 0 <= j < i ==> shown_text(#[trigger] items@[j], number_texts(*decimals)) != t@,
        decreases items.len() - i,
    {
        let s = shown_string(&items[i], decimals);
        if same_text(&s, t.as_str()) {
            return Some(i);
        }
        i = i + 1;
    }
    None
}

/// `set_selected_text(control, text)`: selects the first item of a list box
/// or combo box that shows the text, and shows it.
pub fn set_selected_text<F: Fn(u64) -> (String, String)>(ui: &mut Ui, args: Vec<Value>, decimals: &F) -> (r: Result<Value, String>)
    requires
        writes_numbers(*decimals),
    ensures
        args.len() != 2 ==> fails_with(r, arity_message("set_selected_text"@, "2 arguments"@, args.len() as nat))
            && *final(ui) == *old(ui),
        args.len() == 2 ==> match (args@[0], args@[1]) {
            (Value::String(ids), Value::String(ts)) => {
                let id = ids@;
                let t = ts@;
                if !old(ui).controls@.contains_key(id) {
                    fails_with(r, "Control not found"@) && *final(ui) == *old(ui)
                } else {
                    match list_kind(old(ui).controls@[id].control_type@) {
                        None => fails_with(r, "Unsupported control type for set_selected_text"@)
                            && *final(ui) == *old(ui),
                        Some(combo) => if !lists_of(*old(ui), combo).contains_key(id) {
                            fails_with(r, list_missing(combo)) && *final(ui) == *old(ui)
                        } else {
                            let st = lists_of(*old(ui), combo)[id];
                            if exists|i: int| is_first_shown(st.items@, t, i, number_texts(*decimals)) {
                                &&& r == Ok::<Value, String>(Value::Null)
                                &&& exists|i: int| is_first_shown(st.items@, t, i, number_texts(*decimals)) && list_set(
                                    *old(ui), *final(ui), combo, id,
                                    ListState { selected_index: i as usize, ..st },
                                )
                                &&& text_shown(*old(ui), *final(ui), id, t)
                                &&& *final(ui) == (Ui {
                                    controls: final(ui).controls,
                                    comboboxes: final(ui).comboboxes,
                                    listboxes: final(ui).listboxes,
                                    ..*old(ui)
                                })
                            } else {
                                fails_with(r, text_missing(combo)) && *final(ui) == *old(ui)
                            }
                        },
                    }
                }
            },
            (Value::String(_), _) => fails_with(r, "set_selected_text() expects a string for the new text"@)
                && *final(ui) == *old(ui),
            _ => fails_with(r, "set_selected_text() expects a control identifier as the first argument"@)
                && *final(ui) == *old(ui),
        },
{
    if args.len() != 2 {
        return Err(arity_error("set_selected_text", "2 arguments", args.len()));
    }
    let id = match &args[0] {
        Value::String(id) => id,
        _ => return Err(text("set_selected_text() expects a control identifier as the first argument")),
    };
    let t = match &args[1] {
        Value::String(t) => t,
        _ => return Err(text("set_selected_text() expects a string for the new text")),
    };
    let combo = match ui.controls.get(id) {
        Some(c) => match list_kind_of(&c.control_type) {
            Some(b) => b,
            None => return Err(text("Unsupported control type for set_selected_text")),
        },
        None => return Err(text("Control not found")),
    };
    let found = match lists(ui, combo).get(id) {
        Some(st) => find_shown(&st.items, t, decimals),
        None => return Err(list_missing_error(combo)),
    };
    match found {
        Some(i) => {
            select_item(ui, id, combo, i, t.clone());
            Ok(Value::Null)
        },
        None => Err(if combo {
            text("Text not found in ComboBox items")
        } else {
            text("Text not found in ListBox items")
        }),
    }
}

/// The items that `additem` adds: a text alone, or the items of an array.
pub open spec fn added_items(v: Value) -> Seq<Value> {
    match v {
        Value::Array(a) => a@,
        _ => seq![v],
    }
}

/// The items after adding `add` at `at` (at the end when `at` is `None`).
pub open spec fn items_added(items: Seq<Value>, add: Seq<Value>, at: Option<usize>) -> Seq<Value> {
    match at {
        Some(i) => items.take(i as int) + add + items.skip(i as int),
        None => items + add,
    }
}

/// Adds items to the list `id` of one kind.
fn add_to_list(lists: &mut Registry<ListState>, id: &String, add: Vec<Value>, at: Option<usize>) -> (r: bool)
    requires
        old(lists)@.contains_key(id@),
    ensures
        r == (at matches Some(i) ==> i <= old(lists)@[id@].items@.len()),
        r ==> final(lists)@ == old(lists)@.insert(
            id@,
            ListState { items: final(lists)@[id@].items, ..old(lists)@[id@] },
        ) && final(lists)@[id@].items@ == items_added(old(lists)@[id@].items@, add@, at),
        !r ==> *final(lists) == *old(lists),
{
    let slot = match lists.find(id) {
        Some(s) => s,
        None => return false,
    };
    let n = lists.value_at(slot).items.len();
    let mut add = add;
    match at {
        Some(i) => {
            if i > n {
                return false;
            }
            let st = lists.value_mut(slot);
            let mut tail = st.items.split_off(i);
            st.items.append(&mut add);
            st.items.append(&mut tail);
        },
        None => {
            let st = lists.value_mut(slot);
            st.items.append(&mut add);
        },
    }
    true
}

/// `additem(control, item or items, [index])`: adds a text, or the items of
/// an array, to a list box or combo box: at the end, or before `index` (0
/// when the index is not a number).
pub fn additem(ui: &mut Ui, args: Vec<Value>) -> (r: Result<Value, String>)
    ensures
        (args.len() < 2 || args.len() > 3) ==> fails_with(r, arity_message("additem"@,
            "2-3 arguments (control_id, item(s), [index])"@, args.len() as nat)) && *final(ui) == *old(ui),
        2 <= args.len() <= 3 ==> if !(args@[0] is String) {
            fails_with(r, expects("additem"@, "a control identifier"@)) && *final(ui) == *old(ui)
        } else if !(args@[1] is String || args@[1] is Array) {
            fails_with(r, expects("additem"@, "a string or array for item(s)"@)) && *final(ui) == *old(ui)
        } else {
            let id = id_arg(args@);
            let at = if args.len() == 3 { Some(arg_index(args@, 2)) } else { None };
            if !old(ui).controls@.contains_key(id) {
                fails_with(r, "Control not found"@) && *final(ui) == *old(ui)
            } else {
                match list_kind(old(ui).controls@[id].control_type@) {
                    None => fails_with(r, "additem() only works with ListBox or ComboBox"@) && *final(ui) == *old(ui),
                    Some(combo) => if !lists_of(*old(ui), combo).contains_key(id) {
                        fails_with(r, list_missing(combo)) && *final(ui) == *old(ui)
                    } else {
                        let st = lists_of(*old(ui), combo)[id];
                        if at matches Some(i) && i > st.items@.len() {
                            fails_with(r, "Index out of bounds"@) && *final(ui) == *old(ui)
                        } else {
                            let st2 = lists_of(*final(ui), combo)[id];
                            &&& r == Ok::<Value, String>(Value::Null)
                            &&& list_set(*old(ui), *final(ui), combo, id, ListState { items: st2.items, ..st })
                            &&& st2.items@ == items_added(st.items@, added_items(args@[1]), at)
                            &&& *final(ui) == (Ui {
                                comboboxes: final(ui).comboboxes,
                                listboxes: final(ui).listboxes,
                                ..*old(ui)
                            })
                        }
                    },
                }
            }
        },
{
    if args.len() < 2 || args.len() > 3 {
        return Err(arity_error("additem", "2-3 arguments (control_id, item(s), [index])", args.len()));
    }
    let id = match &args[0] {
        Value::String(id) => id.clone(),
        _ => return Err(expects_error("additem", "a control identifier")),
    };
    match &args[1] {
        Value::String(_) => {},
        Value::Array(_) => {},
        _ => return Err(expects_error("additem", "a string or array for item(s)")),
    }
    let at: Option<usize> = if args.len() == 3 {
        Some(opt_index(&args, 2))
    } else {
        None
    };
    let combo = match ui.controls.get(&id) {
        Some(c) => match list_kind_of(&c.control_type) {
            Some(b) => b,
            None => return Err(text("additem() only works with ListBox or ComboBox")),
        },
        None => return Err(text("Control not found")),
    };
    if lists(ui, combo).get(&id).is_none() {
        return Err(list_missing_error(combo));
    }
    let mut args = args;
    let second = args.remove(1);
    let add: Vec<Value> = match second {
        Value::Array(v) => v,
        other => {
            let mut v: Vec<Value> = Vec::new();
            v.push(other);
            v
        },
    };
    let ok = if combo {
        add_to_list(&mut ui.comboboxes, &id, add, at)
    } else {
        add_to_list(&mut ui.listboxes, &id, add, at)
    };
    if ok {
        Ok(Value::Null)
    } else {
        Err(text("Index out of bounds"))
    }
}

/// `getitem(control, index)`: a copy of an item of a list box or combo box.
pub fn getitem(ui: &Ui, args: Vec<Value>) -> (r: Result<Value, String>)
    ensures
        args.len() != 2 ==> fails_with(r, arity_message("getitem"@, "2 arguments (control_id, index)"@, args.len() as nat)),
        args.len() == 2 ==> match (args@[0], args@[1]) {
            (Value::String(ids), Value::Number(n)) => {
                let id = ids@;
                let idx = saturating_usize(n);
                if !ui.controls@.contains_key(id) {
                    fails_with(r, "Control not found"@)
                } else {
                    match list_kind(ui.controls@[id].control_type@) {
                        None => fails_with(r, "getitem() only works with ListBox or ComboBox"@),
                        Some(combo) => if !lists_of(*ui, combo).contains_key(id) {
                            fails_with(r, list_missing(combo))
                        } else {
                            let items = lists_of(*ui, combo)[id].items@;
                            if idx < items.len() {
                                r matches Ok(v) && copy_of(items[idx as int], v)
                            } else {
                                fails_with(r, "Index out of bounds"@)
                            }
                        },
                    }
                }
            },
            (Value::String(_), _) => fails_with(r, expects("getitem"@, "a number for index"@)),
            _ => fails_with(r, expects("getitem"@, "a control identifier"@)),
        },
{
    if args.len() != 2 {
        return Err(arity_error("getitem", "2 arguments (control_id, index)", args.len()));
    }
    let id = match &args[0] {
        Value::String(id) => id,
        _ => return Err(expects_error("getitem", "a control identifier")),
    };
    let idx = match &args[1] {
        Value::Number(n) => number_to_usize(*n),
        _ => return Err(expects_error("getitem", "a number for index")),
    };
    let combo = match ui.controls.get(id) {
        Some(c) => match list_kind_of(&c.control_type) {
            Some(b) => b,
            None => return Err(text("getitem() only works with ListBox or ComboBox")),
        },
        None => return Err(text("Control not found")),
    };
    match lists(ui, combo).get(id) {
        Some(st) => {
            if idx < st.items.len() {
                Ok(copy_value(&st.items[idx]))
            } else {
                Err(text("Index out of bounds"))
            }
        },
        None => Err(list_missing_error(combo)),
    }
}

} // verus!
