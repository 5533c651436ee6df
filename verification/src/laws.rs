//! Properties that relate several functions of the library: what a read
//! gives back of a write, what one call undoes of another, what every state
//! keeps.

use vstd::prelude::*;
use crate::dictionary::{pairs_insert, pairs_remove};
use crate::number::{holds_integer, is_integral, nearest_representable, saturating_usize, lemma_bit_length_le};
use crate::ui::{
    form_flag_effect, form_query_result, flag_arg, form_arg, in_radio_group, radio_selected, ControlSettings,
    FormSettings, Ui,
};
use crate::value::{key_position, keys_distinct, lemma_key_position, lemma_key_position_range, Dict, Value};
use crate::widgets::{column_added, columns_set, empty_cells, fit_row, page_shown, row_added, rows_set, timer_switched};
use crate::arrange::{cell_rows, cell_set, pad_row, padded_cells};
use crate::containers::grid_created;
use crate::gadgets::{text_read, text_set};
use crate::lists::{index_read, index_selected, list_kind, lists_of, selection_text_read, shown_text};
use crate::widgets::{columns_read, rows_read};
use crate::gauges::{bounds_ok, named_scrollbar, scroll_set_effect, ScrollField};
use crate::single::{is_nan32, narrowed, single_less};
use crate::array::{first_match, inclusion_found, index_found, is_count, is_first_match, lemma_some_first_match};
use crate::datetime::{date_from_text, dateadd_result, days_between, text_at, LAST_FOUR_DIGIT_DAY};
use crate::number::{abs_int, saturating_i64};
use crate::pickers::{timerpicker_time_read, timerpicker_time_set};
use crate::messages::{box_answered, response_polled};
use crate::ui::GridLayoutState;
use crate::registry::Registry;
use crate::trees::{first_index, icon_set, node_added, node_holds, node_read};
use crate::ui::TreeNode;
use crate::array::{sort_order, text_order};
use crate::number::NumOrder;
use crate::conversion::{digit_value, is_ascii_digit, parse_digits, parse_i64, IntParse};
use crate::render::{debug_form, entries_shown, items_debug, lemma_dict_shown, sep, shown_form};
use crate::trees::node_found;
use crate::value::{entries_model, law_equal_to_flag, lemma_pairs_of_entries};

verus! {

/// A dictionary read gives back what was last written under the key.
pub proof fn law_dict_read_after_write(d: Dict, d2: Dict, k: Seq<char>, v: Value)
    requires
        d2.pairs() == pairs_insert(d.pairs(), k, v),
    ensures
        d2.lookup(k) == Some(v),
{
    let s = d.pairs();
    lemma_key_position_range(s, k);
    let i = key_position(s, k);
    if i >= 0 {
        let t = s.update(i, (k, v));
        lemma_key_position_range(t, k);
        assert(t[i].0 == k);
        if key_position(t, k) != i {
            assert(key_position(t, k) > i || key_position(t, k) < i);
            if key_position(t, k) < i {
                assert(t[i].0 != k);
            } else {
                assert(s[key_position(t, k)] == t[key_position(t, k)]);
            }
        }
    } else {
        let t = s.push((k, v));
        lemma_key_position_range(t, k);
        assert(t[t.len() - 1].0 == k);
    }
}

/// Writing under one key leaves what every other key reads.
pub proof fn law_dict_write_keeps_others(d: Dict, d2: Dict, k: Seq<char>, k2: Seq<char>, v: Value)
    requires
        d2.pairs() == pairs_insert(d.pairs(), k, v),
        k2 != k,
    ensures
        d2.lookup(k2) == d.lookup(k2),
{
    let s = d.pairs();
    let t = d2.pairs();
    lemma_key_position_range(s, k2);
    lemma_key_position_range(t, k2);
    lemma_key_position_range(s, k);
    let i = key_position(s, k);
    assert(t.len() >= s.len());
    let p = key_position(s, k2);
    let q = key_position(t, k2);
    if p >= 0 {
        assert(t[p] == s[p]);
    }
    if q >= 0 {
        if q < s.len() {
            assert(t[q] == s[q]);
        }
        assert(q < s.len());
    }
    if p != q {
        if p > q {
            assert(t[p] == s[p]);
        } else {
            assert(t[q] == s[q]);
        }
    }
}

/// After a key is removed from a dictionary, the dictionary does not hold it.
pub proof fn law_dict_remove_forgets(d: Dict, d2: Dict, k: Seq<char>)
    requires
        keys_distinct(d.pairs()),
        d2.pairs() == pairs_remove(d.pairs(), k),
    ensures
        !d2.contains_key(k),
{
    let s = d.pairs();
    lemma_key_position(s, k);
    let t = d2.pairs();
    lemma_key_position_range(t, k);
    if key_position(t, k) >= 0 {
        let j = key_position(t, k);
        let i = key_position(s, k);
        if i >= 0 {
            if j < i {
                assert(t[j] == s[j]);
            } else {
                assert(t[j] == s[j + 1]);
            }
        } else {
            assert(t[j] == s[j]);
        }
    }
}

/// Reversing an array twice gives it back.
pub proof fn law_reverse_twice(a: Seq<Value>)
    ensures
        a.reverse().reverse() == a,
{
    assert(a.reverse().reverse() =~= a);
}

/// A whole number up to `2^53` that is turned into a number and back is the
/// same whole number.
pub proof fn law_count_round_trip(n: nat, b: u64)
    requires
        n <= 0x20_0000_0000_0000,
        n <= usize::MAX,
        holds_integer(b, nearest_representable(n), false),
    ensures
        saturating_usize(b) == n,
{
    vstd::arithmetic::power2::lemma2_to64();
    vstd::arithmetic::power2::lemma2_to64_rest();
    if n < 0x20_0000_0000_0000 {
        lemma_bit_length_le(n, 53);
    } else {
        assert(crate::number::bit_length(n) == 54) by {
            crate::single::lemma_bit_length_exact(n, 54);
        }
        assert(vstd::arithmetic::power2::pow2(1) == 2);
        assert(n % 2 == 0 && n / 2 == 0x10_0000_0000_0000);
        assert(crate::number::round_half_even(n, 1) == 0x10_0000_0000_0000);
        assert(nearest_representable(n) == n);
    }
}

/// For a number, exactly one of `isint` and `isdouble` answers true.
pub proof fn law_int_or_double(args: Seq<Value>, r1: Result<Value, String>, r2: Result<Value, String>)
    requires
        args.len() == 1,
        args[0] is Number,
        r1 == Ok::<Value, String>(Value::Bool(args[0] matches Value::Number(n) && is_integral(n))),
        r2 == Ok::<Value, String>(Value::Bool(args[0] matches Value::Number(n) && !is_integral(n))),
    ensures
        (r1 == Ok::<Value, String>(Value::Bool(true))) != (r2 == Ok::<Value, String>(Value::Bool(true))),
{
}

/// A yes/no property of a form reads back as it was set: after
/// `set_maximized(f, b)` succeeds, `get_maximized(f)` gives `b`.
pub proof fn law_form_flag_read_back(
    before: Ui,
    after: Ui,
    args: Seq<Value>,
    r: Result<Value, String>,
    args2: Seq<Value>,
    r2: Result<Value, String>,
)
    requires
        form_flag_effect(before, after, args, "set_maximized"@, r,
            |f: FormSettings, b: bool| FormSettings { maximized: b, ..f }),
        r is Ok,
        args2 == seq![args[0]],
        form_query_result(after, args2, "get_maximized"@, r2, |f: FormSettings| Value::Bool(f.maximized)),
    ensures
        r2 == Ok::<Value, String>(Value::Bool(flag_arg(args))),
{
    assert(form_arg(args2) == form_arg(args));
}

/// Selecting a radio box leaves exactly that box checked in its group.
pub proof fn law_radio_exclusive(before: Ui, after: Ui, id: String, form: Seq<char>, group: Seq<char>)
    requires
        radio_selected(before, after, id, form, group),
    ensures
        forall|k: Seq<char>|
            #![trigger after.controls@[k]]
            after.controls@.contains_key(k) && in_radio_group(after.controls@[k], form, group) ==> (
            after.controls@[k].checked <==> k == id@),
        after.radio_selections@[form]@[group] == id,
{
    assert forall|k: Seq<char>|
        #![trigger after.controls@[k]]
        after.controls@.contains_key(k) && in_radio_group(after.controls@[k], form, group) implies (
        after.controls@[k].checked <==> k == id@) by {
        assert(before.controls@.contains_key(k));
    }
}

/// After showing a page, the pages control shows it.
pub proof fn law_page_shown(before: Ui, after: Ui, id: Seq<char>, idx: usize, r: Result<Value, String>)
    requires
        page_shown(before, after, id, idx, r),
        r is Ok,
    ensures
        after.pages@.contains_key(id),
        after.pages@[id].active_page_index == idx,
        after.pages@[id].pages == before.pages@[id].pages,
{
}

/// A timer switched on runs, and one switched off does not; its first time
/// of last tick stays.
pub proof fn law_timer_switch(before: crate::ui::TimerState, after: crate::ui::TimerState, on: bool)
    requires
        timer_switched(before, after, on),
    ensures
        after.enabled == on,
        before.last_tick is Some ==> after.last_tick == before.last_tick,
        on ==> after.last_tick is Some,
{
}

/// A grid layout has as many rows of cells as it says, each as long as its
/// number of columns.
pub open spec fn grid_shaped(g: GridLayoutState) -> bool {
    &&& g.cell_controls@.len() == g.rows
    &&& forall|i: int| 0 <= i < g.rows ==> (#[trigger] g.cell_controls@[i])@.len() == g.cols
}

/// Every grid layout of the state is shaped.
pub open spec fn grids_shaped(ui: Ui) -> bool {
    forall|k: Seq<char>| #[trigger] ui.grids@.contains_key(k) ==> grid_shaped(ui.grids@[k])
}

proof fn lemma_other_grids_shaped(before: Ui, after: Ui, id: Seq<char>, h: GridLayoutState)
    requires
        grids_shaped(before),
        after.grids@ == before.grids@.insert(id, h),
        grid_shaped(h),
    ensures
        grids_shaped(after),
{
    assert forall|k: Seq<char>| #[trigger] after.grids@.contains_key(k) implies grid_shaped(after.grids@[k]) by {
        if k != id {
            assert(before.grids@.contains_key(k));
        }
    }
}

/// A new grid layout is shaped, and the others stay so.
pub proof fn law_grid_created_shaped(before: Ui, after: Ui, args: Seq<Value>, r: Result<Value, String>)
    requires
        grids_shaped(before),
        grid_created(before, after, args, r),
    ensures
        grids_shaped(after),
{
    if r is Ok {
        let id = r->Ok_0->String_0@;
        let g = after.grids@[id];
        assert forall|i: int| 0 <= i < g.rows implies (#[trigger] g.cell_controls@[i])@.len() == g.cols by {
            assert(g.cell_controls@[i]@ == empty_cells(g.cols as nat));
        }
        lemma_other_grids_shaped(before, after, id, g);
    }
}

/// Setting the number of rows keeps every grid shaped.
pub proof fn law_grid_rows_shaped(before: Ui, after: Ui, args: Seq<Value>, r: Result<Value, String>)
    requires
        grids_shaped(before),
        rows_set(before, after, args, r),
    ensures
        grids_shaped(after),
{
    if r is Ok {
        let id = crate::widgets::id_arg(args);
        let g = before.grids@[id];
        let h = after.grids@[id];
        assert(before.grids@.contains_key(id));
        assert forall|i: int| 0 <= i < h.rows implies (#[trigger] h.cell_controls@[i])@.len() == h.cols by {
            if i < g.cell_controls@.len() {
                assert(h.cell_controls@[i] == g.cell_controls@[i]);
            } else {
                assert(h.cell_controls@[i]@ == empty_cells(g.cols as nat));
            }
        }
        lemma_other_grids_shaped(before, after, id, h);
    }
}

/// Setting the number of columns keeps every grid shaped.
pub proof fn law_grid_columns_shaped(before: Ui, after: Ui, args: Seq<Value>, r: Result<Value, String>)
    requires
        grids_shaped(before),
        columns_set(before, after, args, r),
    ensures
        grids_shaped(after),
{
    if r is Ok {
        let id = crate::widgets::id_arg(args);
        let g = before.grids@[id];
        let h = after.grids@[id];
        assert(before.grids@.contains_key(id));
        assert forall|i: int| 0 <= i < h.rows implies (#[trigger] h.cell_controls@[i])@.len() == h.cols by {
            assert(h.cell_controls@[i]@ == fit_row(g.cell_controls@[i]@, h.cols as nat));
        }
        lemma_other_grids_shaped(before, after, id, h);
    }
}

/// Adding a row keeps every grid shaped.
pub proof fn law_grid_row_added_shaped(before: Ui, after: Ui, args: Seq<Value>, r: Result<Value, String>)
    requires
        grids_shaped(before),
        crate::widgets::named_grid(before, args) matches Some(g) ==> g.rows < usize::MAX,
        row_added(before, after, args, r),
    ensures
        grids_shaped(after),
{
    if r is Ok {
        let id = crate::widgets::id_arg(args);
        let g = before.grids@[id];
        let h = after.grids@[id];
        assert(before.grids@.contains_key(id));
        assert forall|i: int| 0 <= i < h.rows implies (#[trigger] h.cell_controls@[i])@.len() == h.cols by {
            if i < g.rows {
                assert(h.cell_controls@[i] == h.cell_controls@.drop_last()[i]);
            } else {
                assert(h.cell_controls@[i] == h.cell_controls@.last());
            }
        }
        lemma_other_grids_shaped(before, after, id, h);
    }
}

/// Adding a column keeps every grid shaped.
pub proof fn law_grid_column_added_shaped(before: Ui, after: Ui, args: Seq<Value>, r: Result<Value, String>)
    requires
        grids_shaped(before),
        crate::widgets::named_grid(before, args) matches Some(g) ==> g.cols < usize::MAX,
        column_added(before, after, args, r),
    ensures
        grids_shaped(after),
{
    if r is Ok {
        let id = crate::widgets::id_arg(args);
        let g = before.grids@[id];
        let h = after.grids@[id];
        assert(before.grids@.contains_key(id));
        assert forall|i: int| 0 <= i < h.rows implies (#[trigger] h.cell_controls@[i])@.len() == h.cols by {
            assert(h.cell_controls@[i]@ == g.cell_controls@[i]@.push(None));
        }
        lemma_other_grids_shaped(before, after, id, h);
    }
}

/// Putting a control in a cell keeps every grid shaped.
pub proof fn law_grid_cell_shaped(before: Ui, after: Ui, args: Seq<Value>, r: Result<Value, String>)
    requires
        grids_shaped(before),
        cell_set(before, after, args, r),
    ensures
        grids_shaped(after),
{
    if r is Ok {
        let id = args[0]->String_0@;
        let g = before.grids@[id];
        let h = after.grids@[id];
        assert(before.grids@.contains_key(id));
        let rows = cell_rows(g.cell_controls@);
        let cells = padded_cells(rows, g.rows as nat, g.cols as nat);
        assert(cells.len() == g.rows);
        assert forall|i: int| 0 <= i < g.rows implies (#[trigger] cells[i]).len() == g.cols by {
            assert(rows[i] == g.cell_controls@[i]@);
            assert(cells[i] == pad_row(rows[i], g.cols as nat));
        }
        let h_rows = cell_rows(h.cell_controls@);
        assert(h_rows.len() == h.cell_controls@.len());
        let row = saturating_usize(args[1]->Number_0) as int;
        let col = saturating_usize(args[2]->Number_0) as int;
        assert(h_rows == cells.update(row, cells[row].update(col, Some(args[3]->String_0))));
        assert forall|i: int| 0 <= i < h.rows implies (#[trigger] h.cell_controls@[i])@.len() == h.cols by {
            assert(h_rows[i] == h.cell_controls@[i]@);
            assert(cells[i].len() == g.cols);
        }
        lemma_other_grids_shaped(before, after, id, h);
    }
}

/// The number of rows of a grid reads back as it was set.
pub proof fn law_grid_rows_read_back(
    before: Ui,
    after: Ui,
    args: Seq<Value>,
    r: Result<Value, String>,
    r2: Result<Value, String>,
)
    requires
        rows_set(before, after, args, r),
        r is Ok,
        rows_read(after, seq![args[0]], r2),
    ensures
        r2 matches Ok(v) && is_count(v, saturating_usize(args[1]->Number_0)),
{
    assert(crate::widgets::id_arg(seq![args[0]]) == crate::widgets::id_arg(args));
}

/// The number of columns of a grid reads back as it was set.
pub proof fn law_grid_columns_read_back(
    before: Ui,
    after: Ui,
    args: Seq<Value>,
    r: Result<Value, String>,
    r2: Result<Value, String>,
)
    requires
        columns_set(before, after, args, r),
        r is Ok,
        columns_read(after, seq![args[0]], r2),
    ensures
        r2 matches Ok(v) && is_count(v, saturating_usize(args[1]->Number_0)),
{
    assert(crate::widgets::id_arg(seq![args[0]]) == crate::widgets::id_arg(args));
}

/// The text given to a control or form reads back, except from a rich text
/// or status bar whose state is missing.
pub proof fn law_text_read_back(
    before: Ui,
    after: Ui,
    args: Seq<Value>,
    r: Result<Value, String>,
    r2: Result<Value, String>,
)
    requires
        text_set(before, after, args, r),
        r is Ok,
        args[0] matches Value::String(id) ==> {
            let kind = before.controls@[id@].control_type@;
            &&& kind == "richtext"@ ==> before.richtexts@.contains_key(id@)
            &&& kind == "statusbar"@ ==> before.statusbars@.contains_key(id@)
        },
        text_read(after, seq![args[0]], r2),
    ensures
        r2 matches Ok(Value::String(s)) && s@ == args[1]->String_0@,
{
    reveal_strlit("textbox");
    reveal_strlit("richtext");
    reveal_strlit("statusbar");
    assert("textbox"@.len() == 7 && "richtext"@.len() == 8 && "statusbar"@.len() == 9);
}

/// After an item of a list box or combo box is selected by its index, the
/// control reads back that index and the text of that item.
pub proof fn law_selection_read_back(
    before: Ui,
    after: Ui,
    args: Seq<Value>,
    r: Result<Value, String>,
    r2: Result<Value, String>,
    r3: Result<Value, String>,
    nt: spec_fn(u64) -> (Seq<char>, Seq<char>),
)
    requires
        index_selected(before, after, args, r, nt),
        r is Ok,
        index_read(after, seq![args[0]], r2),
        selection_text_read(after, seq![args[0]], r3),
    ensures
        ({
            let id = args[0]->String_0@;
            let idx = saturating_usize(args[1]->Number_0);
            let combo = list_kind(before.controls@[id].control_type@)->Some_0;
            &&& r2 matches Ok(v) && is_count(v, idx)
            &&& r3 matches Ok(Value::String(s)) && s@ == shown_text(lists_of(before, combo)[id].items@[idx as int], nt)
        }),
{
    assert(crate::widgets::id_arg(seq![args[0]]) == args[0]->String_0@);
}

/// A value given to a scroll bar that is a number ends up within its bounds.
pub proof fn law_scroll_value_within(before: Ui, after: Ui, args: Seq<Value>, r: Result<Value, String>)
    requires
        named_scrollbar(before, args) matches Some(s) ==> bounds_ok(s.min, s.max),
        scroll_set_effect(before, after, args, "setscrollvalue"@, ScrollField::Value, r),
        r is Ok,
        !is_nan32(narrowed(args[1]->Number_0)),
    ensures
        ({
            let s = after.scrollbars@[args[0]->String_0@];
            !single_less(s.value, s.min) && !single_less(s.max, s.value)
        }),
{
    assert(crate::widgets::id_arg(args) == args[0]->String_0@);
}

/// Adding days to a date and counting the days from that date to the date it
/// gives yields the count back, for dates of the years 1 to 9999.
pub proof fn law_days_added_are_counted(args: Seq<Value>, r: Result<Value, String>, r2: Result<Value, String>)
    requires
        dateadd_result(args, r),
        r is Ok,
        days_between(seq![args[0], r->Ok_0], r2),
    ensures
        ({
            let n = saturating_i64(args[1]->Number_0);
            let d = date_from_text(text_at(args, 0), "%Y-%m-%d"@)->Ok_0;
            1 <= d + n <= LAST_FOUR_DIGIT_DAY ==> (r2 matches Ok(Value::Number(v))
                && holds_integer(v, nearest_representable(abs_int(n)), n < 0))
        }),
{
    let a2 = seq![args[0], r->Ok_0];
    assert(text_at(a2, 0) == text_at(args, 0));
    assert(text_at(a2, 1) == r->Ok_0->String_0@);
}

/// A time picker reads back the time its control shows.
pub proof fn law_timerpicker_reads_what_it_shows(
    before: Ui,
    after: Ui,
    args: Seq<Value>,
    r: Result<Value, String>,
    r2: Result<Value, String>,
)
    requires
        timerpicker_time_set(before, after, args, r),
        r is Ok,
        before.controls@.contains_key(text_at(args, 0)),
        timerpicker_time_read(after, seq![args[0]], r2),
    ensures
        r2 matches Ok(Value::String(s)) && s@ == after.controls@[text_at(args, 0)].text@,
{
}

/// The answer a message box was given is what a look at it gives, and the
/// box is then closed.
pub proof fn law_message_box_answer_read(
    before: Ui,
    mid: Ui,
    after: Ui,
    id: String,
    answer: String,
    r: Result<Option<Value>, String>,
)
    requires
        box_answered(before, mid, id@, answer, true),
        response_polled(mid, after, seq![Value::String(id)], r),
    ensures
        r matches Ok(Some(Value::String(t))) && t@ == answer@,
        !after.msgboxes@[id@].is_open,
        after.msgboxes@[id@].response_retrieved,
{
}


/// The first node of a forest with a node put last that holds an
/// identifier none of the forest held is that last node.
proof fn lemma_first_index_push(s: Seq<TreeNode>, x: TreeNode, t: Seq<char>)
    requires
        first_index(s, t) < 0,
        node_holds(x, t),
    ensures
        first_index(s.push(x), t) == s.len(),
    decreases s.len(),
{
    if s.len() > 0 {
        let rest = s.subrange(1, s.len() as int);
        assert(s.push(x).subrange(1, s.len() as int + 1) =~= rest.push(x));
        assert(s.push(x)[0] == s[0]);
        lemma_first_index_push(rest, x, t);
    }
}

/// The dictionary of a leaf: this identifier and text, folded, this icon, no
/// checkbox, no children.
pub open spec fn leaf_value(v: Value, id: Seq<char>, txt: Seq<char>, icon: Seq<char>) -> bool {
    &&& v is Dictionary
    &&& v->Dictionary_0.pairs().len() == 6
    &&& v->Dictionary_0.pairs()[0].0 == "id"@
    &&& v->Dictionary_0.pairs()[0].1 is String && v->Dictionary_0.pairs()[0].1->String_0@ == id
    &&& v->Dictionary_0.pairs()[1].0 == "text"@
    &&& v->Dictionary_0.pairs()[1].1 is String && v->Dictionary_0.pairs()[1].1->String_0@ == txt
    &&& v->Dictionary_0.pairs()[2] == ("expanded"@, Value::Bool(false))
    &&& v->Dictionary_0.pairs()[3].0 == "icon"@
    &&& v->Dictionary_0.pairs()[3].1 is String && v->Dictionary_0.pairs()[3].1->String_0@ == icon
    &&& v->Dictionary_0.pairs()[4] == ("checkbox"@, Value::Null)
    &&& v->Dictionary_0.pairs()[5].0 == "children"@
    &&& v->Dictionary_0.pairs()[5].1 is Array && v->Dictionary_0.pairs()[5].1->Array_0@.len() == 0
}

/// A node added at the top of a tree view (`treeview_add_node`), under an
/// identifier that no node of the tree had, then given an icon
/// (`treeview_set_node_icon`), reads back (`treeview_get_node`) as the
/// dictionary of a leaf of that identifier, text and icon, with exactly the
/// keys id, text, expanded, icon, checkbox and children: folded, with no
/// checkbox and no children.
pub proof fn law_tree_node_read_back(
    u0: Ui,
    u1: Ui,
    u2: Ui,
    tv: String,
    txt: String,
    n: String,
    icon: String,
    r2: Result<Value, String>,
    r3: Result<Value, String>,
    nt: spec_fn(u64) -> (Seq<char>, Seq<char>),
)
    requires
        u0.treeviews@.contains_key(tv@),
        first_index(u0.treeviews@[tv@].nodes@, n@) < 0,
        node_added(u0, u1, seq![Value::String(tv), Value::String(txt)], Ok(Value::String(n))),
        icon_set(u1, u2, seq![Value::String(tv), Value::String(n), Value::String(icon)], r2),
        node_read(u2, seq![Value::String(tv), Value::String(n)], r3, nt),
    ensures
        r2 == Ok::<Value, String>(Value::Null),
        r3 is Ok,
        leaf_value(r3->Ok_0, n@, txt@, icon@),
{
    let ns0 = u0.treeviews@[tv@].nodes@;
    let ns1 = u1.treeviews@[tv@].nodes@;
    let leaf = ns1.last();
    assert(ns1 =~= ns0.push(leaf));
    lemma_first_index_push(ns0, leaf, n@);
    let i = ns0.len() as int;
    assert(u1.treeviews@.contains_key(tv@));
    let ns2 = u2.treeviews@[tv@].nodes@;
    assert(ns2[i] == TreeNode { icon: Some(icon), ..leaf });
    assert(ns2 =~= ns0.push(ns2[i]));
    lemma_first_index_push(ns0, ns2[i], n@);
    assert(u2.treeviews@.contains_key(tv@));
}


/// `array_includes` answers true exactly when `array_indexof` does not
/// answer -1.
pub proof fn law_includes_iff_found(args: Seq<Value>, r1: Result<Value, String>, r2: Result<Value, String>)
    requires
        args.len() == 2,
        args[0] is Array,
        inclusion_found(args, r1),
        index_found(args, r2),
    ensures
        r1 == Ok::<Value, String>(Value::Bool(
            !(r2 matches Ok(Value::Number(b)) && holds_integer(b, 1, true)),
        )),
{
    let a = args[0]->Array_0@;
    let t = args[1];
    if exists|i: int| 0 <= i < a.len() && crate::value::value_eq(#[trigger] a[i], t) {
        let i = choose|i: int| 0 <= i < a.len() && crate::value::value_eq(#[trigger] a[i], t);
        lemma_some_first_match(a, t, i);
    } else {
        if first_match(a, t) >= 0 {
            let k = choose|k: int| is_first_match(a, t, k);
            assert(is_first_match(a, t, k));
        }
    }
}


// ---------------------------------------------------------------------
// Equality of truth values, as array searches see it.

/// `array_includes(a, b)` for a truth value `b` answers whether some element
/// of `a` is that very truth value.
pub proof fn law_includes_flag(args: Seq<Value>, r: Result<Value, String>, b: bool)
    requires
        args.len() == 2,
        args[0] is Array,
        args[1] == Value::Bool(b),
        inclusion_found(args, r),
    ensures
        r == Ok::<Value, String>(Value::Bool(
            exists|i: int| 0 <= i < args[0]->Array_0@.len() && args[0]->Array_0@[i] == Value::Bool(b),
        )),
{
    let a = args[0]->Array_0@;
    assert forall|i: int| 0 <= i < a.len() implies (crate::value::value_eq(a[i], Value::Bool(b)) <==> a[i] == Value::Bool(b)) by {
        law_equal_to_flag(a[i], b);
    }
    if exists|i: int| 0 <= i < a.len() && a[i] == Value::Bool(b) {
        let i = choose|i: int| 0 <= i < a.len() && a[i] == Value::Bool(b);
        assert(crate::value::value_eq(a[i], Value::Bool(b)));
    }
    if exists|i: int| 0 <= i < a.len() && crate::value::value_eq(#[trigger] a[i], Value::Bool(b)) {
        let i = choose|i: int| 0 <= i < a.len() && crate::value::value_eq(#[trigger] a[i], Value::Bool(b));
        assert(a[i] == Value::Bool(b));
    }
}

/// `array_indexof(a, b)` for a truth value `b` gives the index of the first
/// element of `a` that is that very truth value.
pub proof fn law_indexof_flag(args: Seq<Value>, r: Result<Value, String>, b: bool, k: int)
    requires
        args.len() == 2,
        args[0] is Array,
        args[1] == Value::Bool(b),
        0 <= k < args[0]->Array_0@.len(),
        args[0]->Array_0@[k] == Value::Bool(b),
        forall|j: int| 0 <= j < k ==> args[0]->Array_0@[j] != Value::Bool(b),
        index_found(args, r),
    ensures
        r matches Ok(v) && is_count(v, k as nat),
{
    let a = args[0]->Array_0@;
    law_equal_to_flag(a[k], b);
    assert forall|j: int| 0 <= j < k implies !crate::value::value_eq(#[trigger] a[j], Value::Bool(b)) by {
        law_equal_to_flag(a[j], b);
    }
    assert(is_first_match(a, Value::Bool(b), k));
    crate::array::lemma_first_match(a, Value::Bool(b), k);
}

// ---------------------------------------------------------------------
// Texts as `tostring` writes dictionaries and arrays.

/// The parts, with `, ` between each two.
pub open spec fn joined(parts: Seq<Seq<char>>) -> Seq<char>
    decreases parts.len(),
{
    if parts.len() == 0 {
        Seq::empty()
    } else if parts.len() == 1 {
        parts[0]
    } else {
        joined(parts.drop_last()) + ", "@ + parts.last()
    }
}

/// A pair as `tostring` writes it: the key, `: `, the debug form of the value.
pub open spec fn shown_pair(p: (Seq<char>, Value), nt: spec_fn(u64) -> (Seq<char>, Seq<char>)) -> Seq<char> {
    p.0 + ": "@ + debug_form(p.1, nt)
}

proof fn lemma_entries_shown_joined(e: Seq<(String, Value)>, nt: spec_fn(u64) -> (Seq<char>, Seq<char>), n: nat)
    requires
        n <= e.len(),
    ensures
        entries_shown(e, nt, n) == joined(
            Seq::new(n, |i: int| shown_pair(entries_model(e)[i], nt)),
        ),
    decreases n,
{
    let parts = Seq::new(n, |i: int| shown_pair(entries_model(e)[i], nt));
    if n == 0 {
    } else {
        lemma_entries_shown_joined(e, nt, (n - 1) as nat);
        let prev = Seq::new((n - 1) as nat, |i: int| shown_pair(entries_model(e)[i], nt));
        assert(parts.drop_last() =~= prev);
        assert(entries_model(e)[n - 1] == (e[n - 1].0@, e[n - 1].1));
        if n == 1 {
            assert(entries_shown(e, nt, 0) == Seq::<char>::empty());
            assert(entries_shown(e, nt, 1) =~= parts[0]);
        } else {
            assert(entries_shown(e, nt, n) =~= joined(prev) + ", "@ + parts.last());
        }
    }
}

/// `tostring` of a dictionary: in braces, each pair written as its key, `: `
/// and the debug form of its value, with `, ` between each two pairs, in the
/// dictionary's order.
pub proof fn law_dictionary_shown(d: Dict, nt: spec_fn(u64) -> (Seq<char>, Seq<char>))
    ensures
        shown_form(Value::Dictionary(d), nt) == "{"@ + joined(
            Seq::new(d.pairs().len(), |i: int| shown_pair(d.pairs()[i], nt)),
        ) + "}"@,
{
    lemma_dict_shown(d, nt);
    lemma_pairs_of_entries(d);
    lemma_entries_shown_joined(d.entries@, nt, d.entries@.len());
}

proof fn lemma_items_debug_joined(x: Vec<Value>, nt: spec_fn(u64) -> (Seq<char>, Seq<char>), n: nat)
    requires
        n <= x.len(),
    ensures
        items_debug(x, nt, n) == joined(Seq::new(n, |i: int| debug_form(x@[i], nt))),
    decreases n,
{
    let parts = Seq::new(n, |i: int| debug_form(x@[i], nt));
    if n > 0 {
        lemma_items_debug_joined(x, nt, (n - 1) as nat);
        let prev = Seq::new((n - 1) as nat, |i: int| debug_form(x@[i], nt));
        assert(parts.drop_last() =~= prev);
        if n == 1 {
            assert(items_debug(x, nt, 1) =~= parts[0]);
        } else {
            assert(items_debug(x, nt, n) =~= joined(prev) + ", "@ + parts.last());
        }
    }
}

/// `tostring` of an array: in square brackets, the debug forms of its items
/// with `, ` between each two, in order.
pub proof fn law_array_shown(x: Vec<Value>, nt: spec_fn(u64) -> (Seq<char>, Seq<char>))
    ensures
        shown_form(Value::Array(x), nt) == "["@ + joined(Seq::new(x.len() as nat, |i: int| debug_form(x@[i], nt)))
            + "]"@,
{
    lemma_items_debug_joined(x, nt, x.len() as nat);
}

// ---------------------------------------------------------------------
// Reading whole numbers.

/// Ten to the power `k`.
pub open spec fn pow10(k: nat) -> nat
    decreases k,
{
    if k == 0 {
        1
    } else {
        10 * pow10((k - 1) as nat)
    }
}

/// The value of decimal digits in positional notation: each digit times ten
/// to the power of the number of digits after it, summed.
pub open spec fn positional_value(d: Seq<char>) -> int
    decreases d.len(),
{
    if d.len() == 0 {
        0
    } else {
        digit_value(d[0]) * pow10((d.len() - 1) as nat) + positional_value(d.drop_first())
    }
}

proof fn lemma_positional_nonneg(d: Seq<char>)
    requires
        forall|i: int| 0 <= i < d.len() ==> is_ascii_digit(#[trigger] d[i]),
    ensures
        0 <= positional_value(d),
    decreases d.len(),
{
    if d.len() > 0 {
        lemma_positional_nonneg(d.drop_first());
        assert(is_ascii_digit(d[0]));
        assert(digit_value(d[0]) * pow10((d.len() - 1) as nat) >= 0) by (nonlinear_arith)
            requires
                digit_value(d[0]) >= 0,
        ;
    }
}

proof fn lemma_pow10_positive(k: nat)
    ensures
        pow10(k) >= 1,
    decreases k,
{
    if k > 0 {
        lemma_pow10_positive((k - 1) as nat);
    }
}

proof fn lemma_parse_digits(d: Seq<char>, acc: int)
    requires
        acc >= 0,
        forall|i: int| 0 <= i < d.len() ==> is_ascii_digit(#[trigger] d[i]),
        acc * pow10(d.len()) + positional_value(d) <= i64::MAX,
    ensures
        parse_digits(d, acc, false) == IntParse::Parsed((acc * pow10(d.len()) + positional_value(d)) as i64),
    decreases d.len(),
{
    if d.len() == 0 {
        assert(pow10(0) == 1);
        assert(acc * pow10(0) == acc) by (nonlinear_arith)
            requires
                pow10(0) == 1,
        ;
    } else {
        let rest = d.drop_first();
        assert forall|i: int| 0 <= i < rest.len() implies is_ascii_digit(#[trigger] rest[i]) by {
            assert(rest[i] == d[i + 1]);
        }
        let p = pow10(rest.len());
        let dv = digit_value(d[0]);
        assert(is_ascii_digit(d[0]));
        assert(0 <= dv <= 9);
        lemma_pow10_positive(rest.len());
        lemma_positional_nonneg(rest);
        let next = acc * 10 + dv;
        assert(pow10(d.len()) == 10 * p);
        assert(acc * pow10(d.len()) + positional_value(d) == next * p + positional_value(rest)) by (nonlinear_arith)
            requires
                pow10(d.len()) == 10 * p,
                positional_value(d) == dv * p + positional_value(rest),
                next == acc * 10 + dv,
        ;
        assert(next <= next * p) by (nonlinear_arith)
            requires
                p >= 1,
                next >= 0,
        ;
        assert(next <= i64::MAX);
        lemma_parse_digits(rest, next);
        assert(parse_digits(d, acc, false) == parse_digits(rest, next, false));
    }
}

/// `parse_int` (what `toint` reads texts with) reads a text of decimal digits
/// that fits in 64 bits as the value of the digits in positional notation.
pub proof fn law_digits_read(s: Seq<char>)
    requires
        s.len() > 0,
        forall|i: int| 0 <= i < s.len() ==> is_ascii_digit(#[trigger] s[i]),
        positional_value(s) <= i64::MAX,
    ensures
        parse_i64(s) == IntParse::Parsed(positional_value(s) as i64),
{
    assert(is_ascii_digit(s[0]));
    lemma_pow10_positive(s.len());
    lemma_parse_digits(s, 0);
}

// ---------------------------------------------------------------------
// The order of texts.

/// A text comes before each longer text that begins with it, and after
/// each shorter text that it begins with; a text is level with itself.
pub proof fn law_prefix_comes_first(x: Seq<char>, y: Seq<char>)
    ensures
        text_order(x, x) == NumOrder::Equal,
        y.len() > 0 ==> text_order(x, x + y) == NumOrder::Less,
        y.len() > 0 ==> text_order(x + y, x) == NumOrder::Greater,
    decreases x.len(),
{
    if x.len() > 0 {
        law_prefix_comes_first(x.drop_first(), y);
        assert((x + y).drop_first() =~= x.drop_first() + y);
    } else {
        assert(x + y =~= y);
    }
}

/// Two texts that agree before index `i` and differ at it (their characters
/// there have different code points) are in the order of those code points.
pub proof fn law_first_difference_decides(x: Seq<char>, y: Seq<char>, i: int)
    requires
        0 <= i < x.len(),
        i < y.len(),
        x.take(i) == y.take(i),
        (x[i] as u32) != (y[i] as u32),
    ensures
        text_order(x, y) == (if (x[i] as u32) < (y[i] as u32) {
            NumOrder::Less
        } else {
            NumOrder::Greater
        }),
    decreases i,
{
    if i > 0 {
        assert(x.take(i)[0] == x[0]);
        assert(y.take(i)[0] == y[0]);
        assert(x.take(i)[0] == y.take(i)[0]);
        assert(x[0] == y[0]);
        assert(x.drop_first()[i - 1] == x[i]);
        assert(y.drop_first()[i - 1] == y[i]);
        assert(x.drop_first().take(i - 1) =~= x.take(i).drop_first());
        assert(y.drop_first().take(i - 1) =~= y.take(i).drop_first());
        law_first_difference_decides(x.drop_first(), y.drop_first(), i - 1);
    }
}

/// Texts in an array are sorted as strings compare: a text before each of
/// its extensions.
pub proof fn law_sort_puts_prefix_first(x: String, z: String)
    requires
        z@.len() > x@.len(),
        z@.take(x@.len() as int) == x@,
    ensures
        sort_order(Value::String(x), Value::String(z)) == NumOrder::Less,
        sort_order(Value::String(z), Value::String(x)) == NumOrder::Greater,
{
    reveal(sort_order);
    let y = z@.skip(x@.len() as int);
    assert(z@ =~= x@ + y);
    law_prefix_comes_first(x@, y);
}

// ---------------------------------------------------------------------
// Reading a node of a tree view.

/// The node found for an identifier, at any depth, has that identifier.
pub proof fn law_found_node_has_identifier(n: TreeNode, t: Seq<char>)
    requires
        node_holds(n, t),
    ensures
        node_found(n, t).id@ == t,
    decreases n,
{
    if n.id@ != t {
        let i = first_index(n.children@, t);
        crate::trees::lemma_first_index(n.children@, t);
        assert(decreases_to!(n => n.children));
        assert(decreases_to!(n.children => n.children@));
        assert(decreases_to!(n.children@ => n.children@[i]));
        law_found_node_has_identifier(n.children@[i], t);
    }
}

/// `treeview_get_node(tree, node)`, when it succeeds, gives the dictionary
/// whose first pair is `id` with the identifier asked for.
pub proof fn law_read_node_has_identifier(ui: Ui, args: Seq<Value>, r: Result<Value, String>, nt: spec_fn(u64) -> (Seq<char>, Seq<char>))
    requires
        node_read(ui, args, r, nt),
        r is Ok,
    ensures
        args.len() == 2 && args[1] is String,
        r->Ok_0 is Dictionary,
        r->Ok_0->Dictionary_0.pairs()[0].0 == "id"@,
        r->Ok_0->Dictionary_0.pairs()[0].1 is String,
        r->Ok_0->Dictionary_0.pairs()[0].1->String_0@ == args[1]->String_0@,
{
    let id = args[0]->String_0@;
    let node = args[1]->String_0@;
    let ns = ui.treeviews@[id].nodes@;
    crate::trees::lemma_first_index(ns, node);
    law_found_node_has_identifier(ns[first_index(ns, node)], node);
}

} // verus!
