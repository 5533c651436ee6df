//! Tables: creating them, and their headers and rows of cell texts.

use vstd::prelude::*;
use crate::containers::{boxed, made, white};
use crate::create::{
    add_control_as, arg_color, arg_single, arg_text, control_added, creation_error, new_identifier, opt_color,
    opt_single, opt_text, parent_arg, SIZE_14, SIZE_200, SIZE_300, SIZE_5,
};
use crate::gauges::SINGLE_ZERO;
use crate::lists::shown_text;
use crate::render::{number_texts, shown_string, writes_numbers};
use crate::text::{arity_error, arity_message, decimal, decimal_string, fails_with, same_text, text};
use crate::ui::{black, expects, expects_error, Color, ControlSettings, DockStyle, TableState, TextAlign, Ui, FONT_SIZE_DEFAULT};
use crate::value::Value;

verus! {

/// The alignment that a table's alignment name stands for (left and centre by default).
pub open spec fn table_alignment(args: Seq<Value>) -> TextAlign {
    if 9 < args.len() && args[9] is String {
        let s = args[9]->String_0@;
        if s == "left_top"@ {
            TextAlign::LeftTop
        } else if s == "left_center"@ {
            TextAlign::LeftCenter
        } else if s == "left_bottom"@ {
            TextAlign::LeftBottom
        } else if s == "center_top"@ {
            TextAlign::CenterTop
        } else if s == "center_center"@ {
            TextAlign::CenterCenter
        } else if s == "center_bottom"@ {
            TextAlign::CenterBottom
        } else if s == "right_top"@ {
            TextAlign::RightTop
        } else if s == "right_center"@ {
            TextAlign::RightCenter
        } else if s == "right_bottom"@ {
            TextAlign::RightBottom
        } else {
            TextAlign::LeftCenter
        }
    } else {
        TextAlign::LeftCenter
    }
}

fn alignment_arg(args: &Vec<Value>) -> (a: TextAlign)
    ensures
        a == table_alignment(args@),
{
    if 9 < args.len() {
        match &args[9] {
            Value::String(s) => if same_text(s, "left_top") {
                TextAlign::LeftTop
            } else if same_text(s, "left_center") {
                TextAlign::LeftCenter
            } else if same_text(s, "left_bottom") {
                TextAlign::LeftBottom
            } else if same_text(s, "center_top") {
                TextAlign::CenterTop
            } else if same_text(s, "center_center") {
                TextAlign::CenterCenter
            } else if same_text(s, "center_bottom") {
                TextAlign::CenterBottom
            } else if same_text(s, "right_top") {
                TextAlign::RightTop
            } else if same_text(s, "right_center") {
                TextAlign::RightCenter
            } else if same_text(s, "right_bottom") {
                TextAlign::RightBottom
            } else {
                TextAlign::LeftCenter
            },
            _ => TextAlign::LeftCenter,
        }
    } else {
        TextAlign::LeftCenter
    }
}

/// `createtable(form, [x, y, width, height, fontname, fontsize, forecolor,
/// backcolor, text_alignment])`: an empty table, padded by 5, with rows 20 high.
pub fn createtable(ui: &mut Ui, args: Vec<Value>) -> (r: Result<Value, String>)
    ensures
        match creation_error(args@, "createtable"@, 1, 10,
            "1-10 arguments (form_id, [x, y, width, height, fontname, fontsize, forecolor, backcolor, text_alignment])"@) {
            Some(m) => fails_with(r, m) && *final(ui) == *old(ui),
            None => if !old(ui).forms@.contains_key(parent_arg(args@)) {
                fails_with(r, "Parent form not found"@) && *final(ui) == *old(ui)
            } else {
                let id = r->Ok_0->String_0@;
                let c = made(*final(ui), r);
                let st = final(ui).tables@[id];
                &&& r matches Ok(Value::String(i)) && control_added(*old(ui), *final(ui), parent_arg(args@), i)
                &&& c.control_type@ == "table"@
                &&& c.form_id@ == parent_arg(args@)
                &&& c.text@ == Seq::<char>::empty()
                &&& c.x == arg_single(args@, 1, SINGLE_ZERO, SINGLE_ZERO)
                &&& c.y == arg_single(args@, 2, SINGLE_ZERO, SINGLE_ZERO)
                &&& c.width == arg_single(args@, 3, SIZE_300, SIZE_300)
                &&& c.height == arg_single(args@, 4, SIZE_200, SIZE_200)
                &&& c.fontname@ == arg_text(args@, 5, "Proportional"@)
                &&& c.fontsize == arg_single(args@, 6, SIZE_14, SIZE_14)
                &&& c.forecolor == arg_color(args@, 7, black())
                &&& c.backcolor == arg_color(args@, 8, white())
                &&& c.text_alignment == table_alignment(args@)
                &&& c.padding == (SIZE_5, SIZE_5, SIZE_5, SIZE_5)
                &&& c.visible && c.enabled && !c.autosize && !c.border && !c.shadow
                &&& c.fontweight@ == "regular"@ && c.dock == DockStyle::NoDock && c.callback is None
                &&& c.children@.len() == 0 && c.group is None && !c.checked && !c.multiline
                &&& c.layout_constraint is None && c.margin == (0u32, 0u32, 0u32, 0u32)
                &&& c.cursor@ == "default"@ && !c.use_as_default_panel
                &&& c.treeview_on_events@ == Map::<Seq<char>, Option<Value>>::empty()
                &&& c.orientation@ == "horizontal"@ && c.border_style@ == "solid"@
                &&& final(ui).tables@ == old(ui).tables@.insert(id, st)
                &&& st.rows@.len() == 0 && st.headers@.len() == 0
                &&& st.row_height == 0x41A0_0000
                &&& st.scroll_to_row is None && st.sort_column is None && !st.sort_ascending
                &&& *final(ui) == (Ui { controls: final(ui).controls, forms: final(ui).forms, tables: final(ui).tables, ..*old(ui) })
            },
        },
{
    if args.len() < 1 || args.len() > 10 {
        return Err(arity_error("createtable",
            "1-10 arguments (form_id, [x, y, width, height, fontname, fontsize, forecolor, backcolor, text_alignment])", args.len()));
    }
    let form = match &args[0] {
        Value::FormObject(id) => id.clone(),
        _ => return Err(expects_error("createtable", "a Form identifier")),
    };
    if ui.forms.find(&form).is_none() {
        return Err(text("Parent form not found"));
    }
    let mut c = ControlSettings::new(text("table"), form.clone());
    c.x = opt_single(&args, 1, SINGLE_ZERO, SINGLE_ZERO);
    c.y = opt_single(&args, 2, SINGLE_ZERO, SINGLE_ZERO);
    c.width = opt_single(&args, 3, SIZE_300, SIZE_300);
    c.height = opt_single(&args, 4, SIZE_200, SIZE_200);
    c.fontname = opt_text(&args, 5, "Proportional");
    c.fontsize = opt_single(&args, 6, SIZE_14, SIZE_14);
    c.forecolor = opt_color(&args, 7, Color { r: 0, g: 0, b: 0, a: 255 });
    c.backcolor = opt_color(&args, 8, Color { r: 255, g: 255, b: 255, a: 255 });
    c.text_alignment = alignment_arg(&args);
    c.padding = (SIZE_5, SIZE_5, SIZE_5, SIZE_5);
    let id = new_identifier();
    add_control_as(ui, &form, id.clone(), c);
    ui.tables.insert(
        id.clone(),
        TableState {
            rows: Vec::new(),
            headers: Vec::new(),
            row_height: 0x41A0_0000,
            scroll_to_row: None,
            sort_column: None,
            sort_ascending: false,
        },
    );
    Ok(Value::String(id))
}

/// The texts that show the values.
pub open spec fn shown_texts(vs: Seq<Value>, ts: Seq<String>, nt: spec_fn(u64) -> (Seq<char>, Seq<char>)) -> bool {
    &&& ts.len() == vs.len()
    &&& forall|i: int| 0 <= i < vs.len() ==> (#[trigger] ts[i])@ == shown_text(vs[i], nt)
}

fn texts_of<F: Fn(u64) -> (String, String)>(vs: &Vec<Value>, decimals: &F) -> (ts: Vec<String>)
    requires
        writes_numbers(*decimals),
    ensures
        shown_texts(vs@, ts@, number_texts(*decimals)),
{
    let mut ts: Vec<String> = Vec::new();
    let mut i: usize = 0;
    while i < vs.len()
        invariant
            i <= vs.len(),
            ts@.len() == i,
            writes_numbers(*decimals),
            forall|j: int| 0 <= j < i ==> (#[trigger] ts@[j])@ == shown_text(vs@[j], number_texts(*decimals)),
        decreases vs.len() - i,
    {
        ts.push(shown_string(&vs[i], decimals));
        i = i + 1;
    }
    ts
}

/// The error of the first row of `rows` that is not an array of `n` cells, if any.
pub open spec fn row_error(rows: Seq<Value>, n: nat) -> Option<Seq<char>>
    decreases rows.len(),
{
    if rows.len() == 0 {
        None
    } else {
        match rows[0] {
            Value::Array(cells) => if cells@.len() != n {
                Some("Row has "@ + decimal(cells@.len()) + " cells, but expected "@ + decimal(n) + " to match headers"@)
            } else {
                row_error(rows.drop_first(), n)
            },
            _ => Some("Each row must be an array of cell values"@),
        }
    }
}

/// The row of cell texts that a row of values gives.
pub open spec fn row_shown(v: Value, texts: Seq<String>, nt: spec_fn(u64) -> (Seq<char>, Seq<char>)) -> bool {
    v matches Value::Array(cells) && shown_texts(cells@, texts, nt)
}

/// The rows of cell texts that the rows of values give.
pub open spec fn rows_shown(rows: Seq<Value>, out: Seq<Vec<String>>, nt: spec_fn(u64) -> (Seq<char>, Seq<char>)) -> bool {
    &&& out.len() == rows.len()
    &&& forall|i: int| 0 <= i < rows.len() ==> #[trigger] row_shown(rows[i], out[i]@, nt)
}

fn rows_of<F: Fn(u64) -> (String, String)>(rows: &Vec<Value>, n: usize, decimals: &F) -> (r: Result<Vec<Vec<String>>, String>)
    requires
        writes_numbers(*decimals),
    ensures
        match row_error(rows@, n as nat) {
            Some(m) => fails_with(r, m),
            None => r matches Ok(out) && rows_shown(rows@, out@, number_texts(*decimals)),
        },
{
    let mut out: Vec<Vec<String>> = Vec::new();
    let mut i: usize = 0;
    proof {
        assert(rows@.skip(0) =~= rows@);
    }
    while i < rows.len()
        invariant
            i <= rows.len(),
            out@.len() == i,
            writes_numbers(*decimals),
            row_error(rows@, n as nat) == row_error(rows@.skip(i as int), n as nat),
            forall|j: int| 0 <= j < i ==> #[trigger] row_shown(rows@[j], out@[j]@, number_texts(*decimals)),
        decreases rows.len() - i,
    {
        proof {
            assert(rows@.skip(i as int)[0] == rows@[i as int]);
            assert(rows@.skip(i as int).drop_first() =~= rows@.skip(i + 1));
        }
        match &rows[i] {
            Value::Array(cells) => {
                if cells.len() != n {
                    let mut m = text("Row has ");
                    let a = decimal_string(cells.len());
                    m.append(a.as_str());
                    m.append(" cells, but expected ");
                    let b = decimal_string(n);
                    m.append(b.as_str());
                    m.append(" to match headers");
                    return Err(m);
                }
                let ts = texts_of(cells, decimals);
                let ghost tv = ts@;
                assert(shown_texts(cells@, tv, number_texts(*decimals)));
                let ghost before = out@;
                out.push(ts);
                proof {
                    assert(out@[i as int]@ == tv);
                    assert(rows@[i as int] == Value::Array(*cells));
                    assert forall|j: int| 0 <= j < i + 1 implies #[trigger] row_shown(rows@[j], out@[j]@, number_texts(*decimals)) by {
                        if j < i {
                            assert(row_shown(rows@[j], before[j]@, number_texts(*decimals)));
                            assert(out@[j] == before[j]);
                        } else {
                            assert(out@[j]@ == tv);
                        }
                    }
                }
            },
            _ => return Err(text("Each row must be an array of cell values")),
        }
        i = i + 1;
    }
    proof {
        assert(rows@.skip(i as int).len() == 0);
    }
    Ok(out)
}

/// `set_table_data(table, headers, rows)`: the headers and rows, each value
/// shown as text; every row must have as many cells as there are headers.
pub fn set_table_data<F: Fn(u64) -> (String, String)>(ui: &mut Ui, args: Vec<Value>, decimals: &F) -> (r: Result<Value, String>)
    requires
        writes_numbers(*decimals),
    ensures
        args.len() != 3 ==> fails_with(r, arity_message("set_table_data"@, "3 arguments (table_id, headers, rows)"@,
            args.len() as nat)) && *final(ui) == *old(ui),
        args.len() == 3 ==> match (args@[0], args@[1], args@[2]) {
            (Value::String(ts), Value::Array(hs), Value::Array(rs)) => match row_error(rs@, hs@.len()) {
                Some(m) => fails_with(r, m) && *final(ui) == *old(ui),
                None => if old(ui).tables@.contains_key(ts@) {
                    let st = final(ui).tables@[ts@];
                    &&& r == Ok::<Value, String>(Value::Null)
                    &&& final(ui).tables@ == old(ui).tables@.insert(ts@, st)
                    &&& st == (TableState { headers: st.headers, rows: st.rows, ..old(ui).tables@[ts@] })
                    &&& shown_texts(hs@, st.headers@, number_texts(*decimals))
                    &&& rows_shown(rs@, st.rows@, number_texts(*decimals))
                    &&& *final(ui) == (Ui { tables: final(ui).tables, ..*old(ui) })
                } else {
                    fails_with(r, "Table not found"@) && *final(ui) == *old(ui)
                },
            },
            (Value::String(_), Value::Array(_), _) => fails_with(r, expects("set_table_data"@, "an array of rows"@))
                && *final(ui) == *old(ui),
            (Value::String(_), _, _) => fails_with(r, expects("set_table_data"@, "an array of headers"@))
                && *final(ui) == *old(ui),
            _ => fails_with(r, expects("set_table_data"@, "a table identifier"@)) && *final(ui) == *old(ui),
        },
{
    if args.len() != 3 {
        return Err(arity_error("set_table_data", "3 arguments (table_id, headers, rows)", args.len()));
    }
    let id = match &args[0] {
        Value::String(s) => s,
        _ => return Err(expects_error("set_table_data", "a table identifier")),
    };
    let headers = match &args[1] {
        Value::Array(hs) => texts_of(hs, decimals),
        _ => return Err(expects_error("set_table_data", "an array of headers")),
    };
    let rows = match &args[2] {
        Value::Array(rs) => rows_of(rs, headers.len(), decimals)?,
        _ => return Err(expects_error("set_table_data", "an array of rows")),
    };
    match ui.tables.find(id) {
        Some(i) => {
            let st = ui.tables.value_mut(i);
            st.headers = headers;
            st.rows = rows;
            Ok(Value::Null)
        },
        None => Err(text("Table not found")),
    }
}

/// `v` is the array of the texts `ts`.
pub open spec fn text_array(v: Value, ts: Seq<String>) -> bool {
    v matches Value::Array(a) && a@.len() == ts.len() && forall|i: int|
        0 <= i < ts.len() ==> ((#[trigger] a@[i]) matches Value::String(s) && s@ == ts[i]@)
}

fn text_values(ts: &Vec<String>) -> (v: Value)
    ensures
        text_array(v, ts@),
{
    let mut a: Vec<Value> = Vec::new();
    let mut i: usize = 0;
    while i < ts.len()
        invariant
            i <= ts.len(),
            a@.len() == i,
            forall|j: int| 0 <= j < i ==> ((#[trigger] a@[j]) matches Value::String(s) && s@ == ts@[j]@),
        decreases ts.len() - i,
    {
        a.push(Value::String(ts[i].clone()));
        i = i + 1;
    }
    Value::Array(a)
}

/// `get_table_data(table)`: the array of the headers and the array of the
/// rows, all as texts.
pub fn get_table_data(ui: &Ui, args: Vec<Value>) -> (r: Result<Value, String>)
    ensures
        args.len() != 1 ==> fails_with(r, arity_message("get_table_data"@, "1 argument"@, args.len() as nat)),
        args.len() == 1 ==> match args@[0] {
            Value::String(ts) => if ui.tables@.contains_key(ts@) {
                let st = ui.tables@[ts@];
                r matches Ok(Value::Array(pair)) && pair@.len() == 2 && text_array(pair@[0], st.headers@) && (
                pair@[1] matches Value::Array(rows) && rows@.len() == st.rows@.len() && forall|i: int|
                    0 <= i < rows@.len() ==> text_array(#[trigger] rows@[i], st.rows@[i]@))
            } else {
                fails_with(r, "Table not found"@)
            },
            _ => fails_with(r, expects("get_table_data"@, "a table identifier"@)),
        },
{
    if args.len() != 1 {
        return Err(arity_error("get_table_data", "1 argument", args.len()));
    }
    let id = match &args[0] {
        Value::String(s) => s,
        _ => return Err(expects_error("get_table_data", "a table identifier")),
    };
    let st = match ui.tables.get(id) {
        Some(st) => st,
        None => return Err(text("Table not found")),
    };
    let headers = text_values(&st.headers);
    let mut rows: Vec<Value> = Vec::new();
    let mut i: usize = 0;
    while i < st.rows.len()
        invariant
            i <= st.rows@.len(),
            rows@.len() == i,
            forall|j: int| 0 <= j < i ==> text_array(#[trigger] rows@[j], st.rows@[j]@),
        decreases st.rows.len() - i,
    {
        rows.push(text_values(&st.rows[i]));
        i = i + 1;
    }
    let mut pair: Vec<Value> = Vec::new();
    pair.push(headers);
    pair.push(Value::Array(rows));
    Ok(Value::Array(pair))
}

} // verus!
