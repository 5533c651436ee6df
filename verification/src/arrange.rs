//! Putting controls into containers, pages and grid cells, the spacing of
//! layouts, the lines of grids, and turning and pacing turtles.

use vstd::prelude::*;
use crate::color::{parse_color, parsed_color};
use crate::containers::grey;
use crate::frame::is_container;
use crate::gauges::SINGLE_ZERO;
use crate::number::{number_to_usize, saturating_usize};
use crate::single::{narrowed, number_to_single, single_less, single_lt, widened, single_to_number};
use crate::text::{arity_error, arity_message, fails_with, same_text, text};
use crate::ui::{
    expects, expects_error, Color, ControlSettings, DrawyState, FloatWork, FlowLayoutState, FormSettings,
    GridLayoutState, LineLayoutState, Ui,
};
use crate::value::Value;

verus! {

/// The list without any entry equal to `k`, in order (what `retain` keeps).
pub open spec fn without_id(s: Seq<String>, k: Seq<char>) -> Seq<String>
    decreases s.len(),
{
    if s.len() == 0 {
        s
    } else if s.last()@ == k {
        without_id(s.drop_last(), k)
    } else {
        without_id(s.drop_last(), k).push(s.last())
    }
}

fn retain_other(v: &mut Vec<String>, k: &String)
    ensures
        final(v)@ == without_id(old(v)@, k@),
{
    let ghost s = v@;
    let mut out: Vec<String> = Vec::new();
    let mut i: usize = 0;
    while i < v.len()
        invariant
            v@ == s,
            i <= s.len(),
            out@ == without_id(s.take(i as int), k@),
        decreases s.len() - i,
    {
        proof {
            assert(s.take(i + 1).drop_last() =~= s.take(i as int));
        }
        if v[i] != *k {
            out.push(v[i].clone());
        }
        i = i + 1;
    }
    proof {
        assert(s.take(s.len() as int) =~= s);
    }
    *v = out;
}

/// The form `form` no longer lists `k` in its order (when the form exists).
pub open spec fn order_without(before: Ui, after: Ui, form: Seq<char>, k: Seq<char>) -> bool {
    if before.forms@.contains_key(form) {
        after.forms@ == before.forms@.insert(
            form,
            FormSettings {
                controls_order: after.forms@[form].controls_order,
                ..before.forms@[form]
            },
        ) && after.forms@[form].controls_order@ == without_id(before.forms@[form].controls_order@, k)
    } else {
        after.forms@ == before.forms@
    }
}

fn drop_from_order(ui: &mut Ui, form: &String, k: &String)
    ensures
        order_without(*old(ui), *final(ui), form@, k@),
        *final(ui) == (Ui { forms: final(ui).forms, ..*old(ui) }),
{
    match ui.forms.find(form) {
        Some(i) => {
            let f = ui.forms.value_mut(i);
            retain_other(&mut f.controls_order, k);
        },
        None => {},
    }
}

/// `add_to_container(container, control)`: the control moves into the
/// container: onto its form, among its children, out of its form's order, and
/// its position becomes relative to the container's (a shift that is due).
pub fn add_to_container(ui: &mut Ui, args: Vec<Value>) -> (r: Result<Value, String>)
    ensures
        args.len() != 2 ==> fails_with(r, arity_message("add_to_container"@,
            "2 arguments (container_id, control_id)"@, args.len() as nat)) && *final(ui) == *old(ui),
        args.len() == 2 ==> match (args@[0], args@[1]) {
            (Value::String(cs), Value::String(ks)) => {
                let cid = cs@;
                let k = ks@;
                if !old(ui).controls@.contains_key(cid) {
                    fails_with(r, "Container not found"@) && *final(ui) == *old(ui)
                } else if !is_container(old(ui).controls@[cid].control_type@) {
                    fails_with(r, "Identifier must be a container"@) && *final(ui) == *old(ui)
                } else if !old(ui).controls@.contains_key(k) {
                    fails_with(r, "Control not found"@) && *final(ui) == *old(ui)
                } else {
                    let box0 = old(ui).controls@[cid];
                    let form = box0.form_id@;
                    let child = ControlSettings { form_id: box0.form_id, ..old(ui).controls@[k] };
                    let mid = old(ui).controls@.insert(k, child);
                    &&& r == Ok::<Value, String>(Value::Null)
                    &&& final(ui).controls@ == mid.insert(
                        cid,
                        ControlSettings { children: final(ui).controls@[cid].children, ..mid[cid] },
                    )
                    &&& final(ui).controls@[cid].children@ == mid[cid].children@.push(ks)
                    &&& order_without(*old(ui), *final(ui), form, k)
                    &&& final(ui).float_work@ == old(ui).float_work@.push(
                        FloatWork::Shift { id: ks, dx: box0.x, dy: box0.y },
                    )
                    &&& *final(ui) == (Ui {
                        controls: final(ui).controls,
                        forms: final(ui).forms,
                        float_work: final(ui).float_work,
                        ..*old(ui)
                    })
                }
            },
            (Value::String(_), _) => fails_with(r, expects("add_to_container"@, "a control identifier"@))
                && *final(ui) == *old(ui),
            _ => fails_with(r, expects("add_to_container"@, "a container identifier"@)) && *final(ui) == *old(ui),
        },
{
    if args.len() != 2 {
        return Err(arity_error("add_to_container", "2 arguments (container_id, control_id)", args.len()));
    }
    let cid = match &args[0] {
        Value::String(id) => id,
        _ => return Err(expects_error("add_to_container", "a container identifier")),
    };
    let k = match &args[1] {
        Value::String(id) => id,
        _ => return Err(expects_error("add_to_container", "a control identifier")),
    };
    let (form, x, y) = match ui.controls.get(cid) {
        Some(b) => {
            if !crate::frame::container_kind(&b.control_type) {
                return Err(text("Identifier must be a container"));
            }
            (b.form_id.clone(), b.x, b.y)
        },
        None => return Err(text("Container not found")),
    };
    match ui.controls.find(k) {
        Some(i) => {
            let c = ui.controls.value_mut(i);
            c.form_id = form.clone();
        },
        None => return Err(text("Control not found")),
    }
    match ui.controls.find(cid) {
        Some(j) => {
            let b = ui.controls.value_mut(j);
            b.children.push(k.clone());
        },
        None => {},
    }
    drop_from_order(ui, &form, k);
    ui.float_work.push(FloatWork::Shift { id: k.clone(), dx: x, dy: y });
    Ok(Value::Null)
}

/// `add_to_page(pages, index, control)`: the control moves onto the form of
/// the pages control, onto the page, and out of its form's order.
pub fn add_to_page(ui: &mut Ui, args: Vec<Value>) -> (r: Result<Value, String>)
    ensures
        args.len() != 3 ==> fails_with(r, arity_message("add_to_page"@,
            "3 arguments (pages_id, page_index, control_id)"@, args.len() as nat)) && *final(ui) == *old(ui),
        args.len() == 3 ==> match (args@[0], args@[1], args@[2]) {
            (Value::String(ps), Value::Number(n), Value::String(ks)) => {
                let pid = ps@;
                let k = ks@;
                let idx = saturating_usize(n);
                if !old(ui).pages@.contains_key(pid) {
                    fails_with(r, "Pages state not found"@) && *final(ui) == *old(ui)
                } else if idx >= old(ui).pages@[pid].pages@.len() {
                    fails_with(r, "Page index out of bounds"@) && *final(ui) == *old(ui)
                } else if !old(ui).controls@.contains_key(pid) {
                    fails_with(r, "Pages control not found"@) && *final(ui) == *old(ui)
                } else if !old(ui).controls@.contains_key(k) {
                    fails_with(r, "Control not found"@) && *final(ui) == *old(ui)
                } else {
                    let form = old(ui).controls@[pid].form_id;
                    let st = old(ui).pages@[pid];
                    let st2 = final(ui).pages@[pid];
                    &&& r == Ok::<Value, String>(Value::Null)
                    &&& final(ui).controls@ == old(ui).controls@.insert(
                        k,
                        ControlSettings { form_id: form, ..old(ui).controls@[k] },
                    )
                    &&& final(ui).pages@ == old(ui).pages@.insert(pid, st2)
                    &&& st2 == (crate::ui::PagesState { pages: st2.pages, ..st })
                    &&& st2.pages@.len() == st.pages@.len()
                    &&& forall|q: int| 0 <= q < st.pages@.len() && q != idx ==> #[trigger] st2.pages@[q] == st.pages@[q]
                    &&& st2.pages@[idx as int].title == st.pages@[idx as int].title
                    &&& st2.pages@[idx as int].control_ids@ == st.pages@[idx as int].control_ids@.push(ks)
                    &&& order_without(*old(ui), *final(ui), form@, k)
                    &&& *final(ui) == (Ui {
                        controls: final(ui).controls,
                        forms: final(ui).forms,
                        pages: final(ui).pages,
                        ..*old(ui)
                    })
                }
            },
            (Value::String(_), Value::Number(_), _) => fails_with(r, expects("add_to_page"@, "a control identifier"@))
                && *final(ui) == *old(ui),
            (Value::String(_), _, _) => fails_with(r, expects("add_to_page"@, "a number for page_index"@))
                && *final(ui) == *old(ui),
            _ => fails_with(r, expects("add_to_page"@, "a Pages identifier"@)) && *final(ui) == *old(ui),
        },
{
    if args.len() != 3 {
        return Err(arity_error("add_to_page", "3 arguments (pages_id, page_index, control_id)", args.len()));
    }
    let pid = match &args[0] {
        Value::String(id) => id,
        _ => return Err(expects_error("add_to_page", "a Pages identifier")),
    };
    let idx = match &args[1] {
        Value::Number(n) => number_to_usize(*n),
        _ => return Err(expects_error("add_to_page", "a number for page_index")),
    };
    let k = match &args[2] {
        Value::String(id) => id,
        _ => return Err(expects_error("add_to_page", "a control identifier")),
    };
    let slot = match ui.pages.find(pid) {
        Some(s) => s,
        None => return Err(text("Pages state not found")),
    };
    if idx >= ui.pages.value_at(slot).pages.len() {
        return Err(text("Page index out of bounds"));
    }
    let form = match ui.controls.get(pid) {
        Some(p) => p.form_id.clone(),
        None => return Err(text("Pages control not found")),
    };
    match ui.controls.find(k) {
        Some(i) => {
            let c = ui.controls.value_mut(i);
            c.form_id = form.clone();
        },
        None => return Err(text("Control not found")),
    }
    let st = ui.pages.value_mut(slot);
    let ghost before = st.pages@;
    let mut page = st.pages.remove(idx);
    page.control_ids.push(k.clone());
    st.pages.insert(idx, page);
    proof {
        assert forall|q: int| 0 <= q < before.len() && q != idx implies #[trigger] st.pages@[q] == before[q] by {}
    }
    drop_from_order(ui, &form, k);
    Ok(Value::Null)
}

/// A row of cells made at least `n` long with empty cells.
pub open spec fn pad_row(r: Seq<Option<String>>, n: nat) -> Seq<Option<String>> {
    if r.len() < n {
        r + crate::widgets::empty_cells((n - r.len()) as nat)
    } else {
        r
    }
}

/// The cells of a grid with at least `rows` rows, each at least `cols` long.
pub open spec fn padded_cells(cells: Seq<Seq<Option<String>>>, rows: nat, cols: nat) -> Seq<Seq<Option<String>>> {
    let n = if cells.len() < rows { rows } else { cells.len() };
    Seq::new(n, |i: int| pad_row(if i < cells.len() { cells[i] } else { Seq::empty() }, cols))
}

/// The rows of a grid, each by its view.
pub open spec fn cell_rows(g: Seq<Vec<Option<String>>>) -> Seq<Seq<Option<String>>> {
    g.map_values(|r: Vec<Option<String>>| r@)
}

/// The list without the first entry equal to `k`, if there is one.
pub open spec fn remove_first(s: Seq<String>, k: Seq<char>) -> Seq<String>
    decreases s.len(),
{
    if s.len() == 0 {
        s
    } else if s[0]@ == k {
        s.drop_first()
    } else {
        seq![s[0]] + remove_first(s.drop_first(), k)
    }
}

/// The list with `k` at the end, unless it lists it already.
pub open spec fn push_new(s: Seq<String>, k: String) -> Seq<String> {
    if exists|m: int| 0 <= m < s.len() && (#[trigger] s[m])@ == k@ {
        s
    } else {
        s.push(k)
    }
}

fn pad_cells(g: &mut Vec<Vec<Option<String>>>, rows: usize, cols: usize)
    ensures
        cell_rows(final(g)@) == padded_cells(cell_rows(old(g)@), rows as nat, cols as nat),
{
    let ghost start = cell_rows(g@);
    while g.len() < rows
        invariant
            g@.len() <= rows || g@.len() == start.len(),
            start.len() <= g@.len(),
            forall|i: int| 0 <= i < start.len() ==> (#[trigger] g@[i])@ == start[i],
            forall|i: int| start.len() <= i < g@.len() ==> (#[trigger] g@[i])@ == crate::widgets::empty_cells(cols as nat),
        decreases rows - g.len(),
    {
        let mut row: Vec<Option<String>> = Vec::new();
        let mut j: usize = 0;
        while j < cols
            invariant
                j <= cols,
                row@ == crate::widgets::empty_cells(j as nat),
            decreases cols - j,
        {
            row.push(None);
            j = j + 1;
            proof {
                assert(row@ =~= crate::widgets::empty_cells(j as nat));
            }
        }
        g.push(row);
    }
    let ghost mid = g@;
    let n = g.len();
    let mut i: usize = 0;
    while i < n
        invariant
            n == g@.len() == mid.len(),
            i <= n,
            forall|j: int| 0 <= j < i ==> (#[trigger] g@[j])@ == pad_row(mid[j]@, cols as nat),
            forall|j: int| i <= j < n ==> #[trigger] g@[j] == mid[j],
        decreases n - i,
    {
        let mut row = g.remove(i);
        let ghost r0 = row@;
        while row.len() < cols
            invariant
                r0.len() <= row@.len(),
                row@.len() <= cols || row@ == r0,
                row@ == r0 + crate::widgets::empty_cells((row@.len() - r0.len()) as nat),
            decreases cols - row.len(),
        {
            let ghost before = row@;
            row.push(None);
            proof {
                assert(row@ =~= r0 + crate::widgets::empty_cells((row@.len() - r0.len()) as nat));
            }
        }
        proof {
            if r0.len() >= cols {
                assert(row@ =~= r0);
            }
        }
        g.insert(i, row);
        i = i + 1;
    }
    proof {
        let want = padded_cells(start, rows as nat, cols as nat);
        assert(cell_rows(g@).len() == want.len());
        assert forall|j: int| 0 <= j < want.len() implies cell_rows(g@)[j] == want[j] by {
            if j < start.len() {
                assert(mid[j]@ == start[j]);
            } else {
                assert(mid[j]@ == crate::widgets::empty_cells(cols as nat));
                assert(Seq::<Option<String>>::empty() + crate::widgets::empty_cells(cols as nat)
                    =~= crate::widgets::empty_cells(cols as nat));
            }
        }
        assert(cell_rows(g@) =~= want);
    }
}

fn remove_first_of(v: &mut Vec<String>, k: &String)
    ensures
        final(v)@ == remove_first(old(v)@, k@),
{
    let ghost s = v@;
    let mut i: usize = 0;
    let mut found = false;
    while i < v.len()
        invariant_except_break
            v@ == s,
            i <= s.len(),
            !found,
            forall|j: int| 0 <= j < i ==> (#[trigger] s[j])@ != k@,
        ensures
            v@ == s,
            i <= s.len(),
            forall|j: int| 0 <= j < i ==> (#[trigger] s[j])@ != k@,
            found ==> i < s.len() && s[i as int]@ == k@,
            !found ==> i == s.len(),
        decreases s.len() - i,
    {
        if v[i] == *k {
            found = true;
            break;
        }
        i = i + 1;
    }
    if found {
        proof {
            lemma_remove_first_at(s, k@, i as int);
        }
        v.remove(i);
    } else {
        proof {
            lemma_remove_first_absent(s, k@);
        }
    }
}

proof fn lemma_remove_first_at(s: Seq<String>, k: Seq<char>, i: int)
    requires
        0 <= i < s.len(),
        s[i]@ == k,
        forall|j: int| 0 <= j < i ==> (#[trigger] s[j])@ != k,
    ensures
        remove_first(s, k) == s.remove(i),
    decreases s.len(),
{
    if i > 0 {
        lemma_remove_first_at(s.drop_first(), k, i - 1);
        assert(s.remove(i) =~= seq![s[0]] + s.drop_first().remove(i - 1));
    } else {
        assert(s.remove(0) =~= s.drop_first());
    }
}

proof fn lemma_remove_first_absent(s: Seq<String>, k: Seq<char>)
    requires
        forall|j: int| 0 <= j < s.len() ==> (#[trigger] s[j])@ != k,
    ensures
        remove_first(s, k) == s,
    decreases s.len(),
{
    if s.len() > 0 {
        assert forall|j: int| 0 <= j < s.drop_first().len() implies (#[trigger] s.drop_first()[j])@ != k by {
            assert(s.drop_first()[j] == s[j + 1]);
        }
        lemma_remove_first_absent(s.drop_first(), k);
        assert(seq![s[0]] + s.drop_first() =~= s);
    }
}

fn push_if_new(v: &mut Vec<String>, k: &String)
    ensures
        final(v)@ == push_new(old(v)@, *k),
{
    let mut i: usize = 0;
    while i < v.len()
        invariant
            i <= v@.len(),
            forall|j: int| 0 <= j < i ==> (#[trigger] v@[j])@ != k@,
        decreases v.len() - i,
    {
        if v[i] == *k {
            return;
        }
        i = i + 1;
    }
    v.push(k.clone());
}

/// The children of the grid control after the cell that held `old_cell` now
/// holds `k`.
pub open spec fn cell_children(ch: Seq<String>, old_cell: Option<String>, k: String) -> Seq<String> {
    let ch1 = match old_cell {
        Some(e) => remove_first(ch, e@),
        None => ch,
    };
    push_new(ch1, k)
}

/// What `setgridlayoutcell` does.
pub open spec fn cell_set(before: Ui, after: Ui, args: Seq<Value>, r: Result<Value, String>) -> bool {
    &&& (args.len() != 4 ==> fails_with(r, "setgridlayoutcell() expects 4 arguments (layout_id, row, col, control_id)"@)
        && after == before)
    &&& (args.len() == 4 ==> match (args[0], args[1], args[2], args[3]) {
        (Value::String(gs), Value::Number(rn), Value::Number(cn), Value::String(ks)) => {
            let gid = gs@;
            let row = saturating_usize(rn);
            let col = saturating_usize(cn);
            if !before.grids@.contains_key(gid) {
                fails_with(r, "GridLayout not found"@) && after == before
            } else {
                let g = before.grids@[gid];
                if row >= g.rows || col >= g.cols {
                    fails_with(r, "Row or column index out of bounds"@) && after == before
                } else {
                    let cells = padded_cells(cell_rows(g.cell_controls@), g.rows as nat, g.cols as nat);
                    let g2 = after.grids@[gid];
                    &&& r == Ok::<Value, String>(Value::Null)
                    &&& after.grids@ == before.grids@.insert(gid, g2)
                    &&& g2 == (GridLayoutState { cell_controls: g2.cell_controls, ..g })
                    &&& cell_rows(g2.cell_controls@) == cells.update(
                        row as int,
                        cells[row as int].update(col as int, Some(ks)),
                    )
                    &&& if before.controls@.contains_key(gid) {
                        let c = before.controls@[gid];
                        &&& after.controls@ == before.controls@.insert(
                            gid,
                            ControlSettings { children: after.controls@[gid].children, ..c },
                        )
                        &&& after.controls@[gid].children@ == cell_children(
                            c.children@,
                            cells[row as int][col as int],
                            ks,
                        )
                        &&& order_without(before, after, c.form_id@, ks@)
                    } else {
                        after.controls == before.controls && after.forms == before.forms
                    }
                    &&& after == (Ui {
                        controls: after.controls,
                        forms: after.forms,
                        grids: after.grids,
                        ..before
                    })
                }
            }
        },
        (Value::String(_), Value::Number(_), Value::Number(_), _) =>
            fails_with(r, "Fourth argument must be a control identifier"@) && after == before,
        (Value::String(_), Value::Number(_), _, _) =>
            fails_with(r, "Third argument must be a number (col)"@) && after == before,
        (Value::String(_), _, _, _) =>
            fails_with(r, "Second argument must be a number (row)"@) && after == before,
        _ => fails_with(r, "First argument must be a layout identifier"@) && after == before,
    })
}

/// `setgridlayoutcell(grid, row, col, control)`: the cell holds the control;
/// the grid control lists it among its children in place of the control the
/// cell held, and its form's order no longer lists it.
pub fn setgridlayoutcell(ui: &mut Ui, args: Vec<Value>) -> (r: Result<Value, String>)
    ensures
        cell_set(*old(ui), *final(ui), args@, r),
{
    if args.len() != 4 {
        return Err(text("setgridlayoutcell() expects 4 arguments (layout_id, row, col, control_id)"));
    }
    let gid = match &args[0] {
        Value::String(id) => id,
        _ => return Err(text("First argument must be a layout identifier")),
    };
    let row = match &args[1] {
        Value::Number(n) => number_to_usize(*n),
        _ => return Err(text("Second argument must be a number (row)")),
    };
    let col = match &args[2] {
        Value::Number(n) => number_to_usize(*n),
        _ => return Err(text("Third argument must be a number (col)")),
    };
    let k = match &args[3] {
        Value::String(id) => id,
        _ => return Err(text("Fourth argument must be a control identifier")),
    };
    let slot = match ui.grids.find(gid) {
        Some(s) => s,
        None => return Err(text("GridLayout not found")),
    };
    let (rows, cols) = (ui.grids.value_at(slot).rows, ui.grids.value_at(slot).cols);
    if row >= rows || col >= cols {
        return Err(text("Row or column index out of bounds"));
    }
    let g = ui.grids.value_mut(slot);
    pad_cells(&mut g.cell_controls, rows, cols);
    let ghost padded = cell_rows(g.cell_controls@);
    proof {
        assert(padded.len() == g.cell_controls@.len());
        assert(padded[row as int] == g.cell_controls@[row as int]@);
        assert(padded[row as int].len() >= cols);
    }
    let ghost gv0 = g.cell_controls@;
    let mut line = g.cell_controls.remove(row);
    let ghost line0 = line@;
    let previous = line.remove(col);
    line.insert(col, Some(k.clone()));
    proof {
        assert(line@ =~= line0.update(col as int, Some(*k)));
    }
    g.cell_controls.insert(row, line);
    proof {
        assert(g.cell_controls@ =~= gv0.update(row as int, g.cell_controls@[row as int]));
        assert(previous == padded[row as int][col as int]);
        assert forall|j: int| 0 <= j < padded.len() implies #[trigger] cell_rows(g.cell_controls@)[j]
            == padded.update(row as int, padded[row as int].update(col as int, Some(*k)))[j] by {
            if j != row {
                assert(g.cell_controls@[j] == gv0[j]);
            }
        }
        assert(cell_rows(g.cell_controls@) =~= padded.update(row as int, padded[row as int].update(col as int, Some(*k))));
    }
    match ui.controls.find(gid) {
        Some(i) => {
            let c = ui.controls.value_mut(i);
            match &previous {
                Some(e) => remove_first_of(&mut c.children, e),
                None => {},
            }
            push_if_new(&mut c.children, k);
            let form = c.form_id.clone();
            drop_from_order(ui, &form, k);
        },
        None => {},
    }
    Ok(Value::Null)
}

/// `setspacing(layout, spacing)`: the space between the controls of a flow,
/// row or column layout (looked for in that order); rows and columns refuse a
/// negative space.
pub fn setspacing(ui: &mut Ui, args: Vec<Value>) -> (r: Result<Value, String>)
    ensures
        args.len() != 2 ==> fails_with(r, arity_message("setspacing"@, "2 arguments (layout_id, spacing)"@, args.len() as nat))
            && *final(ui) == *old(ui),
        args.len() == 2 ==> match (args@[0], args@[1]) {
            (Value::String(ls), Value::Number(n)) => {
                let id = ls@;
                let s = narrowed(n);
                if old(ui).flowlayouts@.contains_key(id) {
                    &&& r == Ok::<Value, String>(Value::Null)
                    &&& final(ui).flowlayouts@ == old(ui).flowlayouts@.insert(
                        id,
                        FlowLayoutState { spacing: s, ..old(ui).flowlayouts@[id] },
                    )
                    &&& *final(ui) == (Ui { flowlayouts: final(ui).flowlayouts, ..*old(ui) })
                } else if old(ui).hlayouts@.contains_key(id) {
                    if single_less(s, SINGLE_ZERO) {
                        fails_with(r, "Spacing must be non-negative"@) && *final(ui) == *old(ui)
                    } else {
                        &&& r == Ok::<Value, String>(Value::Null)
                        &&& final(ui).hlayouts@ == old(ui).hlayouts@.insert(id, LineLayoutState { spacing: s })
                        &&& *final(ui) == (Ui { hlayouts: final(ui).hlayouts, ..*old(ui) })
                    }
                } else if old(ui).vlayouts@.contains_key(id) {
                    if single_less(s, SINGLE_ZERO) {
                        fails_with(r, "Spacing must be non-negative"@) && *final(ui) == *old(ui)
                    } else {
                        &&& r == Ok::<Value, String>(Value::Null)
                        &&& final(ui).vlayouts@ == old(ui).vlayouts@.insert(id, LineLayoutState { spacing: s })
                        &&& *final(ui) == (Ui { vlayouts: final(ui).vlayouts, ..*old(ui) })
                    }
                } else {
                    fails_with(r, "Layout not found. Supported controls: FlowLayout, HorizontalLayout, VerticalLayout"@)
                        && *final(ui) == *old(ui)
                }
            },
            (Value::String(_), _) => fails_with(r, "Second argument must be a number (spacing)"@) && *final(ui) == *old(ui),
            _ => fails_with(r, "First argument must be a layout identifier (string)"@) && *final(ui) == *old(ui),
        },
{
    if args.len() != 2 {
        return Err(arity_error("setspacing", "2 arguments (layout_id, spacing)", args.len()));
    }
    let id = match &args[0] {
        Value::String(id) => id,
        _ => return Err(text("First argument must be a layout identifier (string)")),
    };
    let s = match &args[1] {
        Value::Number(n) => number_to_single(*n),
        _ => return Err(text("Second argument must be a number (spacing)")),
    };
    match ui.flowlayouts.find(id) {
        Some(i) => {
            let st = ui.flowlayouts.value_mut(i);
            st.spacing = s;
            return Ok(Value::Null);
        },
        None => {},
    }
    match ui.hlayouts.find(id) {
        Some(i) => {
            if single_lt(s, SINGLE_ZERO) {
                return Err(text("Spacing must be non-negative"));
            }
            let st = ui.hlayouts.value_mut(i);
            st.spacing = s;
            return Ok(Value::Null);
        },
        None => {},
    }
    match ui.vlayouts.find(id) {
        Some(i) => {
            if single_lt(s, SINGLE_ZERO) {
                return Err(text("Spacing must be non-negative"));
            }
            let st = ui.vlayouts.value_mut(i);
            st.spacing = s;
            Ok(Value::Null)
        },
        None => Err(text("Layout not found. Supported controls: FlowLayout, HorizontalLayout, VerticalLayout")),
    }
}

/// `getspacing(layout)`: the space between the controls of a flow, row or
/// column layout (looked for in that order).
pub fn getspacing(ui: &Ui, args: Vec<Value>) -> (r: Result<Value, String>)
    ensures
        args.len() != 1 ==> fails_with(r, "getspacing() expects 1 argument (layout_id)"@),
        args.len() == 1 ==> match args@[0] {
            Value::String(ls) => {
                let id = ls@;
                if ui.flowlayouts@.contains_key(id) {
                    r == Ok::<Value, String>(Value::Number(widened(ui.flowlayouts@[id].spacing)))
                } else if ui.hlayouts@.contains_key(id) {
                    r == Ok::<Value, String>(Value::Number(widened(ui.hlayouts@[id].spacing)))
                } else if ui.vlayouts@.contains_key(id) {
                    r == Ok::<Value, String>(Value::Number(widened(ui.vlayouts@[id].spacing)))
                } else {
                    fails_with(r, "Layout not found. Supported layouts: FlowLayout, HorizontalLayout, VerticalLayout"@)
                }
            },
            _ => fails_with(r, "getspacing() expects a layout identifier (string)"@),
        },
{
    if args.len() != 1 {
        return Err(text("getspacing() expects 1 argument (layout_id)"));
    }
    let id = match &args[0] {
        Value::String(id) => id,
        _ => return Err(text("getspacing() expects a layout identifier (string)")),
    };
    match ui.flowlayouts.get(id) {
        Some(st) => return Ok(Value::Number(single_to_number(st.spacing))),
        None => {},
    }
    match ui.hlayouts.get(id) {
        Some(st) => return Ok(Value::Number(single_to_number(st.spacing))),
        None => {},
    }
    match ui.vlayouts.get(id) {
        Some(st) => Ok(Value::Number(single_to_number(st.spacing))),
        None => Err(text("Layout not found. Supported layouts: FlowLayout, HorizontalLayout, VerticalLayout")),
    }
}

/// `set_gridline_color(grid, colour text)`: an unreadable colour is grey.
pub fn set_gridline_color(ui: &mut Ui, args: Vec<Value>) -> (r: Result<Value, String>)
    ensures
        args.len() != 2 ==> fails_with(r, "set_grid_line_color() expects 2 arguments (layout_id, color)"@)
            && *final(ui) == *old(ui),
        args.len() == 2 ==> match (args@[0], args@[1]) {
            (Value::String(gs), Value::String(cs)) => if old(ui).grids@.contains_key(gs@) {
                &&& r == Ok::<Value, String>(Value::Null)
                &&& final(ui).grids@ == old(ui).grids@.insert(
                    gs@,
                    GridLayoutState {
                        line_color: match parsed_color(cs@) {
                            Some(c) => c,
                            None => grey(),
                        },
                        ..old(ui).grids@[gs@]
                    },
                )
                &&& *final(ui) == (Ui { grids: final(ui).grids, ..*old(ui) })
            } else {
                fails_with(r, "GridLayout not found"@) && *final(ui) == *old(ui)
            },
            (Value::String(_), _) => fails_with(r, "Second argument must be a color string (e.g., '255,0,0')"@)
                && *final(ui) == *old(ui),
            _ => fails_with(r, "First argument must be a layout identifier"@) && *final(ui) == *old(ui),
        },
{
    if args.len() != 2 {
        return Err(text("set_grid_line_color() expects 2 arguments (layout_id, color)"));
    }
    let id = match &args[0] {
        Value::String(id) => id,
        _ => return Err(text("First argument must be a layout identifier")),
    };
    let color = match &args[1] {
        Value::String(s) => match parse_color(s) {
            Some(c) => c,
            None => Color { r: 160, g: 160, b: 160, a: 255 },
        },
        _ => return Err(text("Second argument must be a color string (e.g., '255,0,0')")),
    };
    match ui.grids.find(id) {
        Some(i) => {
            let g = ui.grids.value_mut(i);
            g.line_color = color;
            Ok(Value::Null)
        },
        None => Err(text("GridLayout not found")),
    }
}

/// `set_gridline_thickness(grid, thickness)`: a negative thickness is refused.
pub fn set_gridline_thickness(ui: &mut Ui, args: Vec<Value>) -> (r: Result<Value, String>)
    ensures
        args.len() != 2 ==> fails_with(r, "set_grid_line_thickness() expects 2 arguments (layout_id, thickness)"@)
            && *final(ui) == *old(ui),
        args.len() == 2 ==> match (args@[0], args@[1]) {
            (Value::String(gs), Value::Number(n)) => if single_less(narrowed(n), SINGLE_ZERO) {
                fails_with(r, "Thickness must be non-negative"@) && *final(ui) == *old(ui)
            } else if old(ui).grids@.contains_key(gs@) {
                &&& r == Ok::<Value, String>(Value::Null)
                &&& final(ui).grids@ == old(ui).grids@.insert(
                    gs@,
                    GridLayoutState { line_thickness: narrowed(n), ..old(ui).grids@[gs@] },
                )
                &&& *final(ui) == (Ui { grids: final(ui).grids, ..*old(ui) })
            } else {
                fails_with(r, "GridLayout not found"@) && *final(ui) == *old(ui)
            },
            (Value::String(_), _) => fails_with(r, "Second argument must be a number"@) && *final(ui) == *old(ui),
            _ => fails_with(r, "First argument must be a layout identifier"@) && *final(ui) == *old(ui),
        },
{
    if args.len() != 2 {
        return Err(text("set_grid_line_thickness() expects 2 arguments (layout_id, thickness)"));
    }
    let id = match &args[0] {
        Value::String(id) => id,
        _ => return Err(text("First argument must be a layout identifier")),
    };
    let t = match &args[1] {
        Value::Number(n) => number_to_single(*n),
        _ => return Err(text("Second argument must be a number")),
    };
    if single_lt(t, SINGLE_ZERO) {
        return Err(text("Thickness must be non-negative"));
    }
    match ui.grids.find(id) {
        Some(i) => {
            let g = ui.grids.value_mut(i);
            g.line_thickness = t;
            Ok(Value::Null)
        },
        None => Err(text("GridLayout not found")),
    }
}

/// The `f32` bit pattern of 10.0.
pub const SPEED_TOP: u32 = 0x4120_0000;

/// `drawy_speed(shape, speed)`: a speed from 0 to 10.
pub fn drawy_speed(ui: &mut Ui, args: Vec<Value>) -> (r: Result<Value, String>)
    ensures
        args.len() != 2 ==> fails_with(r, "turtle_speed() expects 2 arguments (shape_id, speed)"@) && *final(ui) == *old(ui),
        args.len() == 2 ==> match (args@[0], args@[1]) {
            (Value::String(ss), Value::Number(n)) => {
                let sp = narrowed(n);
                if single_less(sp, SINGLE_ZERO) || single_less(SPEED_TOP, sp) {
                    fails_with(r, "Speed must be between 0 and 10"@) && *final(ui) == *old(ui)
                } else if old(ui).drawings@.contains_key(ss@) {
                    &&& r == Ok::<Value, String>(Value::Null)
                    &&& final(ui).drawings@ == old(ui).drawings@.insert(
                        ss@,
                        DrawyState { speed: sp, ..old(ui).drawings@[ss@] },
                    )
                    &&& *final(ui) == (Ui { drawings: final(ui).drawings, ..*old(ui) })
                } else {
                    fails_with(r, "Turtle state not found"@) && *final(ui) == *old(ui)
                }
            },
            (Value::String(_), _) => fails_with(r, "Second argument must be a number (speed)"@) && *final(ui) == *old(ui),
            _ => fails_with(r, "First argument must be a shape identifier"@) && *final(ui) == *old(ui),
        },
{
    if args.len() != 2 {
        return Err(text("turtle_speed() expects 2 arguments (shape_id, speed)"));
    }
    let id = match &args[0] {
        Value::String(id) => id,
        _ => return Err(text("First argument must be a shape identifier")),
    };
    let sp = match &args[1] {
        Value::Number(n) => {
            let s = number_to_single(*n);
            if single_lt(s, SINGLE_ZERO) || single_lt(SPEED_TOP, s) {
                return Err(text("Speed must be between 0 and 10"));
            }
            s
        },
        _ => return Err(text("Second argument must be a number (speed)")),
    };
    match ui.drawings.find(id) {
        Some(i) => {
            let d = ui.drawings.value_mut(i);
            d.speed = sp;
            Ok(Value::Null)
        },
        None => Err(text("Turtle state not found")),
    }
}

/// The result and effect of turning a turtle: the turn is due, in single
/// precision, for the window loop.
pub open spec fn turned(before: Ui, after: Ui, args: Seq<Value>, arity: Seq<char>, left: bool, r: Result<Value, String>) -> bool {
    if args.len() != 2 {
        fails_with(r, arity) && after == before
    } else {
        match (args[0], args[1]) {
            (Value::String(ss), Value::Number(n)) => if before.drawings@.contains_key(ss@) {
                &&& r == Ok::<Value, String>(Value::Null)
                &&& after.float_work@ == before.float_work@.push(FloatWork::Turn { id: ss, degrees: narrowed(n), left })
                &&& after == (Ui { float_work: after.float_work, ..before })
            } else {
                fails_with(r, "Turtle state not found"@) && after == before
            },
            (Value::String(_), _) => fails_with(r, "Second argument must be a number (angle)"@) && after == before,
            _ => fails_with(r, "First argument must be a shape identifier"@) && after == before,
        }
    }
}

fn turn(ui: &mut Ui, args: Vec<Value>, arity: &str, left: bool) -> (r: Result<Value, String>)
    ensures
        turned(*old(ui), *final(ui), args@, arity@, left, r),
{
    if args.len() != 2 {
        return Err(text(arity));
    }
    let (a, b) = crate::value::take_two(args);
    let id = match a {
        Value::String(id) => id,
        _ => return Err(text("First argument must be a shape identifier")),
    };
    let degrees = match b {
        Value::Number(n) => number_to_single(n),
        _ => return Err(text("Second argument must be a number (angle)")),
    };
    if ui.drawings.find(&id).is_none() {
        return Err(text("Turtle state not found"));
    }
    ui.float_work.push(FloatWork::Turn { id, degrees, left });
    Ok(Value::Null)
}

/// `drawy_left(shape, angle)`: the turtle turns left by the angle.
pub fn drawy_left(ui: &mut Ui, args: Vec<Value>) -> (r: Result<Value, String>)
    ensures
        turned(*old(ui), *final(ui), args@, "turtle_left() expects 2 arguments (shape_id, angle)"@, true, r),
{
    turn(ui, args, "turtle_left() expects 2 arguments (shape_id, angle)", true)
}

/// `drawy_right(shape, angle)`: the turtle turns right by the angle.
pub fn drawy_right(ui: &mut Ui, args: Vec<Value>) -> (r: Result<Value, String>)
    ensures
        turned(*old(ui), *final(ui), args@, "turtle_right() expects 2 arguments (shape_id, angle)"@, false, r),
{
    turn(ui, args, "turtle_right() expects 2 arguments (shape_id, angle)", false)
}

/// `drawy_pencolor(shape, colour text)`: an unreadable colour is transparent.
pub fn drawy_pencolor(ui: &mut Ui, args: Vec<Value>) -> (r: Result<Value, String>)
    ensures
        args.len() != 2 ==> fails_with(r, "turtle_pencolor() expects 2 arguments (shape_id, color)"@) && *final(ui) == *old(ui),
        args.len() == 2 ==> match (args@[0], args@[1]) {
            (Value::String(ss), Value::String(cs)) => if old(ui).drawings@.contains_key(ss@) {
                &&& r == Ok::<Value, String>(Value::Null)
                &&& final(ui).drawings@ == old(ui).drawings@.insert(
                    ss@,
                    DrawyState {
                        pen_color: match parsed_color(cs@) {
                            Some(c) => c,
                            None => crate::ui::transparent(),
                        },
                        ..old(ui).drawings@[ss@]
                    },
                )
                &&& *final(ui) == (Ui { drawings: final(ui).drawings, ..*old(ui) })
            } else {
                fails_with(r, "Turtle state not found"@) && *final(ui) == *old(ui)
            },
            (Value::String(_), _) => fails_with(r, "Second argument must be a color"@) && *final(ui) == *old(ui),
            _ => fails_with(r, "First argument must be a shape identifier"@) && *final(ui) == *old(ui),
        },
{
    if args.len() != 2 {
        return Err(text("turtle_pencolor() expects 2 arguments (shape_id, color)"));
    }
    let id = match &args[0] {
        Value::String(id) => id,
        _ => return Err(text("First argument must be a shape identifier")),
    };
    let color = match &args[1] {
        Value::String(s) => match parse_color(s) {
            Some(c) => c,
            None => Color { r: 0, g: 0, b: 0, a: 0 },
        },
        _ => return Err(text("Second argument must be a color")),
    };
    match ui.drawings.find(id) {
        Some(i) => {
            let d = ui.drawings.value_mut(i);
            d.pen_color = color;
            Ok(Value::Null)
        },
        None => Err(text("Turtle state not found")),
    }
}

} // verus!
