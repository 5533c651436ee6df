//! Creating the controls that hold or arrange other controls: group boxes,
//! panels, cards, side bars, layouts, pages, separators, shapes and tree views.

use vstd::prelude::*;
use crate::create::{
    add_control_as, arg_flag, arg_single, arg_text, control_added, creation_error, new_identifier, opt_flag, opt_single,
    opt_text, parent_arg, is_uuid_text, SIZE_100, SIZE_150, SIZE_200, SIZE_300,
};
use crate::gauges::SINGLE_ZERO;
use crate::text::{arity_error, arity_message, fails_with, same_text, text};
use crate::ui::{
    black, expects, expects_error, transparent, Color, ControlSettings, DockStyle, DrawyState, FloatWork,
    FlowLayoutState, FormSettings, GridLayoutState, LineLayoutState, Page, PagesState, TextAlign, TreeViewState,
    Ui, ALPHA_OPAQUE, FONT_SIZE_DEFAULT,
};
use crate::value::Value;
use crate::widgets::empty_cells;

verus! {

/// The `f32` bit patterns of 1.0, 2.0, 5.0 and 10.0.
pub const SIZE_1: u32 = 0x3f80_0000;

pub const SIZE_2: u32 = 0x4000_0000;

pub const SPACING_DEFAULT: u32 = 0x40A0_0000;

pub const SIZE_10: u32 = 0x4120_0000;

/// The light grey of side bars and pages.
pub open spec fn light_grey() -> Color {
    Color { r: 240, g: 240, b: 240, a: 255 }
}

/// The grey of separators and grid lines.
pub open spec fn grey() -> Color {
    Color { r: 160, g: 160, b: 160, a: 255 }
}

/// White.
pub open spec fn white() -> Color {
    Color { r: 255, g: 255, b: 255, a: 255 }
}

/// The look that a holding or arranging control takes from the defaults.
pub open spec fn default_look(c: ControlSettings) -> bool {
    &&& c.visible && c.enabled
    &&& c.margin == (0u32, 0u32, 0u32, 0u32)
    &&& c.layout_constraint is None
    &&& c.treeview_on_events@ == Map::<Seq<char>, Option<Value>>::empty()
    &&& !c.multiline
    &&& c.children@ == Seq::<String>::empty()
    &&& !c.autosize
    &&& c.fontname@ == "SegoeUI"@
    &&& c.fontsize == FONT_SIZE_DEFAULT
    &&& c.fontweight@ == "regular"@
    &&& c.forecolor == black()
    &&& c.text_alignment == TextAlign::LeftTop
    &&& c.callback is None
    &&& c.cursor@ == "default"@
    &&& !c.checked
    &&& c.group is None
}

/// The settings of a new holding or arranging control.
pub open spec fn boxed(
    c: ControlSettings,
    kind: Seq<char>,
    form: Seq<char>,
    txt: Seq<char>,
    place: (u32, u32, u32, u32),
    back: Color,
    frame: (bool, bool),
    pad: u32,
    dock: DockStyle,
    default_panel: bool,
    orientation: Seq<char>,
    style: Seq<char>,
) -> bool {
    &&& c.control_type@ == kind
    &&& c.form_id@ == form
    &&& c.text@ == txt
    &&& c.x == place.0 && c.y == place.1 && c.width == place.2 && c.height == place.3
    &&& c.backcolor == back
    &&& c.border == frame.0 && c.shadow == frame.1
    &&& c.padding == (pad, pad, pad, pad)
    &&& c.dock == dock
    &&& c.use_as_default_panel == default_panel
    &&& c.orientation@ == orientation
    &&& c.border_style@ == style
    &&& default_look(c)
}

pub(crate) fn boxed_control(
    kind: &str,
    form: &String,
    txt: String,
    place: (u32, u32, u32, u32),
    back: Color,
    frame: (bool, bool),
    pad: u32,
    dock: DockStyle,
    default_panel: bool,
    orientation: String,
    style: String,
) -> (c: ControlSettings)
    ensures
        boxed(c, kind@, form@, txt@, place, back, frame, pad, dock, default_panel, orientation@, style@),
{
    let mut c = ControlSettings::new(text(kind), form.clone());
    c.text = txt;
    c.x = place.0;
    c.y = place.1;
    c.width = place.2;
    c.height = place.3;
    c.backcolor = back;
    c.border = frame.0;
    c.shadow = frame.1;
    c.padding = (pad, pad, pad, pad);
    c.dock = dock;
    c.use_as_default_panel = default_panel;
    c.orientation = orientation;
    c.border_style = style;
    c
}

/// The new control `id` is in the table; when its form exists, it comes
/// last in the form's order.
pub open spec fn control_put(before: Ui, after: Ui, form: Seq<char>, id: String) -> bool {
    &&& is_uuid_text(id@)
    &&& after.controls@ == before.controls@.insert(id@, after.controls@[id@])
    &&& if before.forms@.contains_key(form) {
        let f = after.forms@[form];
        &&& after.forms@ == before.forms@.insert(form, f)
        &&& f == (FormSettings { controls_order: f.controls_order, ..before.forms@[form] })
        &&& f.controls_order@ == before.forms@[form].controls_order@.push(id)
    } else {
        after.forms@ == before.forms@
    }
}

/// Puts a new control in the table under a fresh identifier, and at the end
/// of its form's order when the form exists.
fn put_control(ui: &mut Ui, form: &String, c: ControlSettings) -> (id: String)
    ensures
        control_put(*old(ui), *final(ui), form@, id),
        final(ui).controls@[id@] == c,
        *final(ui) == (Ui { controls: final(ui).controls, forms: final(ui).forms, ..*old(ui) }),
{
    let id = new_identifier();
    ui.controls.insert(id.clone(), c);
    match ui.forms.find(form) {
        Some(i) => {
            let f = ui.forms.value_mut(i);
            f.controls_order.push(id.clone());
        },
        None => {},
    }
    id
}

/// The new control of a creation that succeeded.
pub open spec fn made(after: Ui, r: Result<Value, String>) -> ControlSettings {
    after.controls@[r->Ok_0->String_0@]
}

/// A creation that needs no existing form succeeded with `c`.
pub open spec fn put_ok(before: Ui, after: Ui, args: Seq<Value>, r: Result<Value, String>) -> bool {
    &&& r matches Ok(Value::String(id)) && control_put(before, after, parent_arg(args), id)
    &&& after == (Ui { controls: after.controls, forms: after.forms, ..before })
}

/// `creategroupbox(form, title, [x, y, width, height, border])`: a framed
/// box with a title.
pub fn creategroupbox(ui: &mut Ui, args: Vec<Value>) -> (r: Result<Value, String>)
    ensures
        match creation_error(args@, "creategroupbox"@, 2, 7,
            "2-7 arguments (form_id, title, [x, y, width, height, border])"@) {
            Some(m) => fails_with(r, m) && *final(ui) == *old(ui),
            None => if !(args@[1] is String) {
                fails_with(r, "creategroupbox() expects a title string"@) && *final(ui) == *old(ui)
            } else {
                &&& put_ok(*old(ui), *final(ui), args@, r)
                &&& boxed(made(*final(ui), r), "groupbox"@, parent_arg(args@), args@[1]->String_0@,
                    (arg_single(args@, 2, SINGLE_ZERO, SINGLE_ZERO), arg_single(args@, 3, SINGLE_ZERO, SINGLE_ZERO),
                    arg_single(args@, 4, SIZE_200, SIZE_200), arg_single(args@, 5, SIZE_100, SIZE_100)),
                    transparent(), (arg_flag(args@, 6, true), false), SINGLE_ZERO, DockStyle::NoDock, false,
                    "horizontal"@, "solid"@)
            },
        },
{
    if args.len() < 2 || args.len() > 7 {
        return Err(arity_error("creategroupbox", "2-7 arguments (form_id, title, [x, y, width, height, border])", args.len()));
    }
    let form = match &args[0] {
        Value::FormObject(id) => id.clone(),
        _ => return Err(expects_error("creategroupbox", "a Form identifier")),
    };
    let title = match &args[1] {
        Value::String(s) => s.clone(),
        _ => return Err(text("creategroupbox() expects a title string")),
    };
    let place = (
        opt_single(&args, 2, SINGLE_ZERO, SINGLE_ZERO),
        opt_single(&args, 3, SINGLE_ZERO, SINGLE_ZERO),
        opt_single(&args, 4, SIZE_200, SIZE_200),
        opt_single(&args, 5, SIZE_100, SIZE_100),
    );
    let border = opt_flag(&args, 6, true);
    let c = boxed_control("groupbox", &form, title, place, Color { r: 0, g: 0, b: 0, a: 0 }, (border, false),
        SINGLE_ZERO, DockStyle::NoDock, false, text("horizontal"), text("solid"));
    let id = put_control(ui, &form, c);
    Ok(Value::String(id))
}

/// `createpanel(form, [x, y, width, height, border])`.
pub fn createpanel(ui: &mut Ui, args: Vec<Value>) -> (r: Result<Value, String>)
    ensures
        match creation_error(args@, "createpanel"@, 1, 6, "1-6 arguments (form_id, [x, y, width, height, border])"@) {
            Some(m) => fails_with(r, m) && *final(ui) == *old(ui),
            None => {
                &&& put_ok(*old(ui), *final(ui), args@, r)
                &&& boxed(made(*final(ui), r), "panel"@, parent_arg(args@), Seq::empty(),
                    (arg_single(args@, 1, SINGLE_ZERO, SINGLE_ZERO), arg_single(args@, 2, SINGLE_ZERO, SINGLE_ZERO),
                    arg_single(args@, 3, SIZE_200, SIZE_200), arg_single(args@, 4, SIZE_100, SIZE_100)),
                    transparent(), (arg_flag(args@, 5, false), false), SINGLE_ZERO, DockStyle::NoDock, false,
                    "horizontal"@, "solid"@)
            },
        },
{
    if args.len() < 1 || args.len() > 6 {
        return Err(arity_error("createpanel", "1-6 arguments (form_id, [x, y, width, height, border])", args.len()));
    }
    let form = match &args[0] {
        Value::FormObject(id) => id.clone(),
        _ => return Err(expects_error("createpanel", "a Form identifier")),
    };
    let place = (
        opt_single(&args, 1, SINGLE_ZERO, SINGLE_ZERO),
        opt_single(&args, 2, SINGLE_ZERO, SINGLE_ZERO),
        opt_single(&args, 3, SIZE_200, SIZE_200),
        opt_single(&args, 4, SIZE_100, SIZE_100),
    );
    let border = opt_flag(&args, 5, false);
    let c = boxed_control("panel", &form, String::new(), place, Color { r: 0, g: 0, b: 0, a: 0 }, (border, false),
        SINGLE_ZERO, DockStyle::NoDock, false, text("horizontal"), text("solid"));
    let id = put_control(ui, &form, c);
    Ok(Value::String(id))
}

/// `createcard(form, [x, y, width, height])`: a white box with a shadow,
/// padded by 10.
pub fn createcard(ui: &mut Ui, args: Vec<Value>) -> (r: Result<Value, String>)
    ensures
        match creation_error(args@, "createcard"@, 1, 5, "1-5 arguments (form_id, [x, y, width, height])"@) {
            Some(m) => fails_with(r, m) && *final(ui) == *old(ui),
            None => {
                &&& put_ok(*old(ui), *final(ui), args@, r)
                &&& boxed(made(*final(ui), r), "card"@, parent_arg(args@), Seq::empty(),
                    (arg_single(args@, 1, SINGLE_ZERO, SINGLE_ZERO), arg_single(args@, 2, SINGLE_ZERO, SINGLE_ZERO),
                    arg_single(args@, 3, SIZE_200, SIZE_200), arg_single(args@, 4, SIZE_100, SIZE_100)),
                    white(), (false, true), SIZE_10, DockStyle::NoDock, false, "horizontal"@, "solid"@)
            },
        },
{
    if args.len() < 1 || args.len() > 5 {
        return Err(arity_error("createcard", "1-5 arguments (form_id, [x, y, width, height])", args.len()));
    }
    let form = match &args[0] {
        Value::FormObject(id) => id.clone(),
        _ => return Err(expects_error("createcard", "a Form identifier")),
    };
    let place = (
        opt_single(&args, 1, SINGLE_ZERO, SINGLE_ZERO),
        opt_single(&args, 2, SINGLE_ZERO, SINGLE_ZERO),
        opt_single(&args, 3, SIZE_200, SIZE_200),
        opt_single(&args, 4, SIZE_100, SIZE_100),
    );
    let c = boxed_control("card", &form, String::new(), place, Color { r: 255, g: 255, b: 255, a: 255 },
        (false, true), SIZE_10, DockStyle::NoDock, false, text("horizontal"), text("solid"));
    let id = put_control(ui, &form, c);
    Ok(Value::String(id))
}

/// The edge that a side bar clings to: `"right"` for the right, anything else the left.
pub open spec fn sidebar_dock(args: Seq<Value>) -> DockStyle {
    if 3 < args.len() && (args[3] matches Value::String(s) && s@ == "right"@) {
        DockStyle::Right
    } else {
        DockStyle::Left
    }
}

/// `createsidebar(form, [x, width, "left" | "right"])`: a light grey bar
/// along an edge of the form.
pub fn createsidebar(ui: &mut Ui, args: Vec<Value>) -> (r: Result<Value, String>)
    ensures
        match creation_error(args@, "createsidebar"@, 1, 4, "1-4 arguments (form_id, [x, width, dock])"@) {
            Some(m) => fails_with(r, m) && *final(ui) == *old(ui),
            None => {
                &&& put_ok(*old(ui), *final(ui), args@, r)
                &&& boxed(made(*final(ui), r), "sidebar"@, parent_arg(args@), Seq::empty(),
                    (arg_single(args@, 1, SINGLE_ZERO, SINGLE_ZERO), SINGLE_ZERO, arg_single(args@, 2, SIZE_150, SIZE_150),
                    SINGLE_ZERO), light_grey(), (false, false), SINGLE_ZERO, sidebar_dock(args@), false,
                    "horizontal"@, "solid"@)
            },
        },
{
    if args.len() < 1 || args.len() > 4 {
        return Err(arity_error("createsidebar", "1-4 arguments (form_id, [x, width, dock])", args.len()));
    }
    let form = match &args[0] {
        Value::FormObject(id) => id.clone(),
        _ => return Err(expects_error("createsidebar", "a Form identifier")),
    };
    let place = (
        opt_single(&args, 1, SINGLE_ZERO, SINGLE_ZERO),
        SINGLE_ZERO,
        opt_single(&args, 2, SIZE_150, SIZE_150),
        SINGLE_ZERO,
    );
    let dock = if args.len() > 3 {
        match &args[3] {
            Value::String(s) => if same_text(s, "right") {
                DockStyle::Right
            } else {
                DockStyle::Left
            },
            _ => DockStyle::Left,
        }
    } else {
        DockStyle::Left
    };
    let c = boxed_control("sidebar", &form, String::new(), place, Color { r: 240, g: 240, b: 240, a: 255 },
        (false, false), SINGLE_ZERO, dock, false, text("horizontal"), text("solid"));
    let id = put_control(ui, &form, c);
    Ok(Value::String(id))
}

/// The place of a control read from the arguments 1 to 4: x and y (0 by
/// default), width and height.
pub open spec fn place_from(args: Seq<Value>, w: u32, h: u32) -> (u32, u32, u32, u32) {
    (
        arg_single(args, 1, SINGLE_ZERO, SINGLE_ZERO),
        arg_single(args, 2, SINGLE_ZERO, SINGLE_ZERO),
        arg_single(args, 3, w, w),
        arg_single(args, 4, h, h),
    )
}

fn opt_place(args: &Vec<Value>, w: u32, h: u32) -> (r: (u32, u32, u32, u32))
    ensures
        r == place_from(args@, w, h),
{
    (
        opt_single(args, 1, SINGLE_ZERO, SINGLE_ZERO),
        opt_single(args, 2, SINGLE_ZERO, SINGLE_ZERO),
        opt_single(args, 3, w, w),
        opt_single(args, 4, h, h),
    )
}

/// The kinds of layout that line controls up.
#[derive(Clone, Copy, PartialEq, Eq, Structural)]
pub enum LineKind {
    Row,
    Column,
    Flow,
}

/// The name, the control type and the table of each kind of line layout.
pub open spec fn line_name(k: LineKind) -> Seq<char> {
    match k {
        LineKind::Row => "createhorizontallayout"@,
        LineKind::Column => "createverticallayout"@,
        LineKind::Flow => "createflowlayout"@,
    }
}

pub open spec fn line_type(k: LineKind) -> Seq<char> {
    match k {
        LineKind::Row => "horizontallayout"@,
        LineKind::Column => "verticallayout"@,
        LineKind::Flow => "flowlayout"@,
    }
}

/// The state tables after a line layout `id` of kind `k` was added with its
/// default spacing (and, for a flow, wrapping).
pub open spec fn line_added(before: Ui, after: Ui, k: LineKind, id: Seq<char>) -> bool {
    match k {
        LineKind::Row => after.hlayouts@ == before.hlayouts@.insert(id, LineLayoutState { spacing: SPACING_DEFAULT })
            && after == (Ui { controls: after.controls, forms: after.forms, hlayouts: after.hlayouts, ..before }),
        LineKind::Column => after.vlayouts@ == before.vlayouts@.insert(id, LineLayoutState { spacing: SPACING_DEFAULT })
            && after == (Ui { controls: after.controls, forms: after.forms, vlayouts: after.vlayouts, ..before }),
        LineKind::Flow => after.flowlayouts@ == before.flowlayouts@.insert(
            id,
            FlowLayoutState { spacing: SPACING_DEFAULT, wrap: true },
        ) && after == (Ui { controls: after.controls, forms: after.forms, flowlayouts: after.flowlayouts, ..before }),
    }
}

/// The result and effect of creating a line layout of kind `k`.
pub open spec fn line_created(before: Ui, after: Ui, args: Seq<Value>, k: LineKind, r: Result<Value, String>) -> bool {
    match creation_error(args, line_name(k), 1, 5, "1-5 arguments (form_id, [x, y, width, height])"@) {
        Some(m) => fails_with(r, m) && after == before,
        None => if !before.forms@.contains_key(parent_arg(args)) {
            fails_with(r, "Parent form not found"@) && after == before
        } else {
            &&& r matches Ok(Value::String(id)) && control_added(before, after, parent_arg(args), id)
            &&& boxed(made(after, r), line_type(k), parent_arg(args), Seq::empty(), place_from(args, SIZE_200, SIZE_100),
                transparent(), (false, false), SINGLE_ZERO, DockStyle::NoDock, false, "horizontal"@, "solid"@)
            &&& line_added(before, after, k, r->Ok_0->String_0@)
        },
    }
}

fn line_layout(ui: &mut Ui, args: Vec<Value>, name: &str, kind: &str, k: LineKind) -> (r: Result<Value, String>)
    requires
        name@ == line_name(k),
        kind@ == line_type(k),
    ensures
        line_created(*old(ui), *final(ui), args@, k, r),
{
    if args.len() < 1 || args.len() > 5 {
        return Err(arity_error(name, "1-5 arguments (form_id, [x, y, width, height])", args.len()));
    }
    let form = match &args[0] {
        Value::FormObject(id) => id.clone(),
        _ => return Err(expects_error(name, "a Form identifier")),
    };
    if ui.forms.find(&form).is_none() {
        return Err(text("Parent form not found"));
    }
    let place = opt_place(&args, SIZE_200, SIZE_100);
    let c = boxed_control(kind, &form, String::new(), place, Color { r: 0, g: 0, b: 0, a: 0 }, (false, false),
        SINGLE_ZERO, DockStyle::NoDock, false, text("horizontal"), text("solid"));
    let id = new_identifier();
    add_control_as(ui, &form, id.clone(), c);
    match k {
        LineKind::Row => ui.hlayouts.insert(id.clone(), LineLayoutState { spacing: SPACING_DEFAULT }),
        LineKind::Column => ui.vlayouts.insert(id.clone(), LineLayoutState { spacing: SPACING_DEFAULT }),
        LineKind::Flow => ui.flowlayouts.insert(id.clone(), FlowLayoutState { spacing: SPACING_DEFAULT, wrap: true }),
    }
    Ok(Value::String(id))
}

/// `createhorizontallayout(form, [x, y, width, height])`: controls side by side.
pub fn createhorizontallayout(ui: &mut Ui, args: Vec<Value>) -> (r: Result<Value, String>)
    ensures
        line_created(*old(ui), *final(ui), args@, LineKind::Row, r),
{
    line_layout(ui, args, "createhorizontallayout", "horizontallayout", LineKind::Row)
}

/// `createverticallayout(form, [x, y, width, height])`: controls one under another.
pub fn createverticallayout(ui: &mut Ui, args: Vec<Value>) -> (r: Result<Value, String>)
    ensures
        line_created(*old(ui), *final(ui), args@, LineKind::Column, r),
{
    line_layout(ui, args, "createverticallayout", "verticallayout", LineKind::Column)
}

/// `createflowlayout(form, [x, y, width, height])`: controls in wrapping lines.
pub fn createflowlayout(ui: &mut Ui, args: Vec<Value>) -> (r: Result<Value, String>)
    ensures
        line_created(*old(ui), *final(ui), args@, LineKind::Flow, r),
{
    line_layout(ui, args, "createflowlayout", "flowlayout", LineKind::Flow)
}

/// The whole number that optional argument `i` gives: a number cut to a
/// whole count, else `d`.
pub open spec fn arg_count(args: Seq<Value>, i: int, d: usize) -> usize {
    if i < args.len() && args[i] is Number {
        crate::number::saturating_usize(args[i]->Number_0) as usize
    } else {
        d
    }
}

fn opt_count(args: &Vec<Value>, i: usize, d: usize) -> (r: usize)
    ensures
        r == arg_count(args@, i as int, d),
{
    if i < args.len() {
        match &args[i] {
            Value::Number(n) => crate::number::number_to_usize(*n),
            _ => d,
        }
    } else {
        d
    }
}

/// `rows` rows of `cols` empty cells.
fn empty_grid(rows: usize, cols: usize) -> (g: Vec<Vec<Option<String>>>)
    ensures
        g@.len() == rows,
        forall|i: int| 0 <= i < rows ==> (#[trigger] g@[i])@ == empty_cells(cols as nat),
{
    let mut g: Vec<Vec<Option<String>>> = Vec::new();
    let mut i: usize = 0;
    while i < rows
        invariant
            i <= rows,
            g@.len() == i,
            forall|j: int| 0 <= j < i ==> (#[trigger] g@[j])@ == empty_cells(cols as nat),
        decreases rows - i,
    {
        let mut row: Vec<Option<String>> = Vec::new();
        let mut j: usize = 0;
        while j < cols
            invariant
                j <= cols,
                row@ == empty_cells(j as nat),
            decreases cols - j,
        {
            row.push(None);
            j = j + 1;
            proof {
                assert(row@ =~= empty_cells(j as nat));
            }
        }
        g.push(row);
        i = i + 1;
    }
    g
}

/// What `creategridlayout` does.
pub open spec fn grid_created(before: Ui, after: Ui, args: Seq<Value>, r: Result<Value, String>) -> bool {
    &&& (args.len() < 1 || args.len() > 8 ==> fails_with(r,
        "creategridlayout() expects 1-8 arguments (form_id, [rows, cols, x, y, width, height, show_grid_lines])"@)
        && after == before)
    &&& (1 <= args.len() <= 8 ==> if !(args[0] is FormObject) {
        fails_with(r, expects("creategridlayout"@, "a Form identifier"@)) && after == before
    } else if !before.forms@.contains_key(parent_arg(args)) {
        fails_with(r, "Parent form not found"@) && after == before
    } else {
        let rows = arg_count(args, 1, 1);
        let cols = arg_count(args, 2, 1);
        let g = after.grids@[r->Ok_0->String_0@];
        &&& r matches Ok(Value::String(id)) && control_added(before, after, parent_arg(args), id)
        &&& boxed(made(after, r), "gridlayout"@, parent_arg(args), Seq::empty(),
            (arg_single(args, 3, SINGLE_ZERO, SINGLE_ZERO), arg_single(args, 4, SINGLE_ZERO, SINGLE_ZERO),
            arg_single(args, 5, SIZE_200, SIZE_200), arg_single(args, 6, SIZE_100, SIZE_100)),
            transparent(), (false, false), SINGLE_ZERO, DockStyle::NoDock, false, "horizontal"@, "solid"@)
        &&& after.grids@ == before.grids@.insert(r->Ok_0->String_0@, g)
        &&& g.rows == rows && g.cols == cols
        &&& g.spacing == SPACING_DEFAULT
        &&& g.cell_controls@.len() == rows
        &&& forall|i: int| 0 <= i < rows ==> (#[trigger] g.cell_controls@[i])@ == empty_cells(cols as nat)
        &&& g.show_grid_lines == arg_flag(args, 7, false)
        &&& g.line_color == grey()
        &&& g.line_thickness == SIZE_1
        &&& after == (Ui { controls: after.controls, forms: after.forms, grids: after.grids, ..before })
    })
}

/// `creategridlayout(form, [rows, cols, x, y, width, height, show_grid_lines])`:
/// a grid of empty cells, 1 by 1 unless told otherwise, spaced by 5, its lines
/// grey and 1 thick.
pub fn creategridlayout(ui: &mut Ui, args: Vec<Value>) -> (r: Result<Value, String>)
    ensures
        grid_created(*old(ui), *final(ui), args@, r),
{
    if args.len() < 1 || args.len() > 8 {
        return Err(text("creategridlayout() expects 1-8 arguments (form_id, [rows, cols, x, y, width, height, show_grid_lines])"));
    }
    let form = match &args[0] {
        Value::FormObject(id) => id.clone(),
        _ => return Err(expects_error("creategridlayout", "a Form identifier")),
    };
    if ui.forms.find(&form).is_none() {
        return Err(text("Parent form not found"));
    }
    let rows = opt_count(&args, 1, 1);
    let cols = opt_count(&args, 2, 1);
    let place = (
        opt_single(&args, 3, SINGLE_ZERO, SINGLE_ZERO),
        opt_single(&args, 4, SINGLE_ZERO, SINGLE_ZERO),
        opt_single(&args, 5, SIZE_200, SIZE_200),
        opt_single(&args, 6, SIZE_100, SIZE_100),
    );
    let show = opt_flag(&args, 7, false);
    let c = boxed_control("gridlayout", &form, String::new(), place, Color { r: 0, g: 0, b: 0, a: 0 }, (false, false),
        SINGLE_ZERO, DockStyle::NoDock, false, text("horizontal"), text("solid"));
    let id = new_identifier();
    add_control_as(ui, &form, id.clone(), c);
    let state = GridLayoutState {
        rows,
        cols,
        spacing: SPACING_DEFAULT,
        cell_controls: empty_grid(rows, cols),
        show_grid_lines: show,
        line_color: Color { r: 160, g: 160, b: 160, a: 255 },
        line_thickness: SIZE_1,
    };
    ui.grids.insert(id.clone(), state);
    Ok(Value::String(id))
}

/// The titles of the pages, when the second argument gives them.
pub open spec fn titles_arg(args: Seq<Value>) -> Seq<Value> {
    if args.len() > 1 && args[1] is Array {
        args[1]->Array_0@
    } else {
        Seq::empty()
    }
}

/// Where the optional flag of `createpages` stands.
pub open spec fn flag_at(args: Seq<Value>) -> int {
    if args.len() > 1 && args[1] is Array {
        2
    } else {
        1
    }
}

/// Whether the pages control fills its form.
pub open spec fn default_panel_arg(args: Seq<Value>) -> bool {
    let a = flag_at(args);
    a < args.len() && args[a] is Bool && args[a]->Bool_0
}

/// Where the place of the pages control starts: after the flag when it is given.
pub open spec fn pages_place_at(args: Seq<Value>) -> int {
    let a = flag_at(args);
    if a < args.len() && args[a] is Bool {
        a + 1
    } else {
        a
    }
}

/// The pages that a list of titles gives: one page per title, or a single
/// "Page 1" when there is none; no page holds a control yet.
pub open spec fn pages_titled(p: Seq<Page>, titles: Seq<Value>) -> bool {
    &&& p.len() == if titles.len() == 0 { 1 } else { titles.len() }
    &&& forall|i: int| 0 <= i < p.len() ==> (#[trigger] p[i]).control_ids@ == Seq::<String>::empty()
    &&& titles.len() == 0 ==> p[0].title@ == "Page 1"@
    &&& forall|i: int| 0 <= i < titles.len() ==> (#[trigger] p[i]).title@ == titles[i]->String_0@
}

/// Makes the pages from a list of titles, or says that one is not a text.
fn pages_from(titles: &Vec<Value>) -> (r: Option<Vec<Page>>)
    ensures
        r is Some <==> forall|i: int| 0 <= i < titles@.len() ==> (#[trigger] titles@[i]) is String,
        r matches Some(p) ==> pages_titled(p@, titles@),
{
    let mut p: Vec<Page> = Vec::new();
    let mut i: usize = 0;
    while i < titles.len()
        invariant
            i <= titles.len(),
            p@.len() == i,
            forall|j: int| 0 <= j < i ==> (#[trigger] titles@[j]) is String,
            forall|j: int| 0 <= j < i ==> (#[trigger] p@[j]).control_ids@ == Seq::<String>::empty(),
            forall|j: int| 0 <= j < i ==> (#[trigger] p@[j]).title@ == titles@[j]->String_0@,
        decreases titles.len() - i,
    {
        match &titles[i] {
            Value::String(s) => {
                p.push(Page { title: s.clone(), control_ids: Vec::new() });
            },
            _ => return None,
        }
        i = i + 1;
    }
    if p.len() == 0 {
        p.push(Page { title: text("Page 1"), control_ids: Vec::new() });
    }
    Some(p)
}

/// `createpages(form, [titles, default_panel, x, y, width, height])`: a
/// bordered, light grey pages control showing its first page, fading between
/// pages; as the default panel it fills the form.
pub fn createpages(ui: &mut Ui, args: Vec<Value>) -> (r: Result<Value, String>)
    ensures
        match creation_error(args@, "createpages"@, 1, 7,
            "1-7 arguments (form_id, [page_titles, default_panel, x, y, width, height])"@) {
            Some(m) => fails_with(r, m) && *final(ui) == *old(ui),
            None => if !old(ui).forms@.contains_key(parent_arg(args@)) {
                fails_with(r, "Parent form not found"@) && *final(ui) == *old(ui)
            } else if !(forall|i: int| 0 <= i < titles_arg(args@).len() ==> (#[trigger] titles_arg(args@)[i]) is String) {
                fails_with(r, "createpages() expects page_titles to be an array of strings"@) && *final(ui) == *old(ui)
            } else {
                let a = pages_place_at(args@);
                let dp = default_panel_arg(args@);
                let st = final(ui).pages@[r->Ok_0->String_0@];
                &&& r matches Ok(Value::String(id)) && control_added(*old(ui), *final(ui), parent_arg(args@), id)
                &&& boxed(made(*final(ui), r), "pages"@, parent_arg(args@), Seq::empty(),
                    (arg_single(args@, a, SINGLE_ZERO, SINGLE_ZERO), arg_single(args@, a + 1, SINGLE_ZERO, SINGLE_ZERO),
                    arg_single(args@, a + 2, SIZE_300, SIZE_300), arg_single(args@, a + 3, SIZE_200, SIZE_200)),
                    light_grey(), (true, false), SINGLE_ZERO, if dp { DockStyle::Fill } else { DockStyle::NoDock }, dp,
                    "horizontal"@, "solid"@)
                &&& final(ui).pages@ == old(ui).pages@.insert(r->Ok_0->String_0@, st)
                &&& pages_titled(st.pages@, titles_arg(args@))
                &&& st.active_page_index == 0
                &&& st.transition_alpha == ALPHA_OPAQUE
                &&& !st.in_transition
                &&& st.transition_start_time is None
                &&& st.use_transition
                &&& *final(ui) == (Ui { controls: final(ui).controls, forms: final(ui).forms, pages: final(ui).pages, ..*old(ui) })
            },
        },
{
    if args.len() < 1 || args.len() > 7 {
        return Err(arity_error("createpages", "1-7 arguments (form_id, [page_titles, default_panel, x, y, width, height])", args.len()));
    }
    let form = match &args[0] {
        Value::FormObject(id) => id.clone(),
        _ => return Err(expects_error("createpages", "a Form identifier")),
    };
    if ui.forms.find(&form).is_none() {
        return Err(text("Parent form not found"));
    }
    let empty: Vec<Value> = Vec::new();
    let (titles, mut a): (&Vec<Value>, usize) = if args.len() > 1 {
        match &args[1] {
            Value::Array(v) => (v, 2),
            _ => (&empty, 1),
        }
    } else {
        (&empty, 1)
    };
    let pages = match pages_from(titles) {
        Some(p) => p,
        None => return Err(text("createpages() expects page_titles to be an array of strings")),
    };
    let mut dp = false;
    if a < args.len() {
        match &args[a] {
            Value::Bool(b) => {
                dp = *b;
                a = a + 1;
            },
            _ => {},
        }
    }
    let place = (
        opt_single(&args, a, SINGLE_ZERO, SINGLE_ZERO),
        opt_single(&args, a + 1, SINGLE_ZERO, SINGLE_ZERO),
        opt_single(&args, a + 2, SIZE_300, SIZE_300),
        opt_single(&args, a + 3, SIZE_200, SIZE_200),
    );
    let dock = if dp { DockStyle::Fill } else { DockStyle::NoDock };
    let c = boxed_control("pages", &form, String::new(), place, Color { r: 240, g: 240, b: 240, a: 255 }, (true, false),
        SINGLE_ZERO, dock, dp, text("horizontal"), text("solid"));
    let id = new_identifier();
    add_control_as(ui, &form, id.clone(), c);
    let st = PagesState {
        pages,
        active_page_index: 0,
        transition_alpha: ALPHA_OPAQUE,
        in_transition: false,
        transition_start_time: None,
        use_transition: true,
    };
    ui.pages.insert(id.clone(), st);
    Ok(Value::String(id))
}

/// `createseparator(form, [orientation, x, y, width, height])`: a grey line,
/// 100 by 2 unless told otherwise.
pub fn createseparator(ui: &mut Ui, args: Vec<Value>) -> (r: Result<Value, String>)
    ensures
        match creation_error(args@, "createseparator"@, 1, 6,
            "1-6 arguments (form_id, [orientation, x, y, width, height])"@) {
            Some(m) => fails_with(r, m) && *final(ui) == *old(ui),
            None => if !old(ui).forms@.contains_key(parent_arg(args@)) {
                fails_with(r, "Parent form not found"@) && *final(ui) == *old(ui)
            } else {
                &&& r matches Ok(Value::String(id)) && control_added(*old(ui), *final(ui), parent_arg(args@), id)
                &&& boxed(made(*final(ui), r), "separator"@, parent_arg(args@), Seq::empty(),
                    (arg_single(args@, 2, SINGLE_ZERO, SINGLE_ZERO), arg_single(args@, 3, SINGLE_ZERO, SINGLE_ZERO),
                    arg_single(args@, 4, SIZE_100, SIZE_100), arg_single(args@, 5, SIZE_2, SIZE_2)),
                    grey(), (false, false), SINGLE_ZERO, DockStyle::NoDock, false,
                    arg_text(args@, 1, "horizontal"@), "solid"@)
                &&& *final(ui) == (Ui { controls: final(ui).controls, forms: final(ui).forms, ..*old(ui) })
            },
        },
{
    if args.len() < 1 || args.len() > 6 {
        return Err(arity_error("createseparator", "1-6 arguments (form_id, [orientation, x, y, width, height])", args.len()));
    }
    let form = match &args[0] {
        Value::FormObject(id) => id.clone(),
        _ => return Err(expects_error("createseparator", "a Form identifier")),
    };
    if ui.forms.find(&form).is_none() {
        return Err(text("Parent form not found"));
    }
    let orientation = opt_text(&args, 1, "horizontal");
    let place = (
        opt_single(&args, 2, SINGLE_ZERO, SINGLE_ZERO),
        opt_single(&args, 3, SINGLE_ZERO, SINGLE_ZERO),
        opt_single(&args, 4, SIZE_100, SIZE_100),
        opt_single(&args, 5, SIZE_2, SIZE_2),
    );
    let c = boxed_control("separator", &form, String::new(), place, Color { r: 160, g: 160, b: 160, a: 255 },
        (false, false), SINGLE_ZERO, DockStyle::NoDock, false, orientation, text("solid"));
    let id = new_identifier();
    add_control_as(ui, &form, id.clone(), c);
    Ok(Value::String(id))
}

/// A turtle at rest: at the origin, facing east, pen down and 2 wide, black
/// on transparent, at speed 1, not filling.
pub open spec fn fresh_turtle(d: DrawyState) -> bool {
    &&& d.position == (SINGLE_ZERO, SINGLE_ZERO)
    &&& d.heading == SINGLE_ZERO
    &&& d.pen_down
    &&& d.pen_size == SIZE_2
    &&& d.pen_color == black()
    &&& d.fill_color == transparent()
    &&& d.speed == SIZE_1
    &&& d.fill_path@ == Seq::<(u32, u32)>::empty()
    &&& !d.filling
    &&& d.path@.len() == 0
    &&& d.pending_moves@.len() == 0
}

/// `createshape(form, [x, y, width, height, border_style])`: a drawing area
/// with a turtle, which is then due to stand at its centre.
pub fn createshape(ui: &mut Ui, args: Vec<Value>) -> (r: Result<Value, String>)
    ensures
        match creation_error(args@, "createshape"@, 1, 6, "1-6 arguments (form_id, [x, y, width, height, border_style])"@) {
            Some(m) => fails_with(r, m) && *final(ui) == *old(ui),
            None => if !old(ui).forms@.contains_key(parent_arg(args@)) {
                fails_with(r, "Parent form not found"@) && *final(ui) == *old(ui)
            } else {
                let id = r->Ok_0->String_0;
                &&& r matches Ok(Value::String(i)) && control_added(*old(ui), *final(ui), parent_arg(args@), i)
                &&& boxed(made(*final(ui), r), "shape"@, parent_arg(args@), Seq::empty(), place_from(args@, SIZE_100, SIZE_100),
                    transparent(), (false, false), SINGLE_ZERO, DockStyle::NoDock, false,
                    "horizontal"@, arg_text(args@, 5, "solid"@))
                &&& final(ui).drawings@ == old(ui).drawings@.insert(id@, final(ui).drawings@[id@])
                &&& fresh_turtle(final(ui).drawings@[id@])
                &&& final(ui).float_work@.len() == old(ui).float_work@.len() + 1
                &&& final(ui).float_work@.drop_last() == old(ui).float_work@
                &&& final(ui).float_work@.last() matches FloatWork::CenterTurtle { id: w } && w@ == id@
                &&& *final(ui) == (Ui {
                    controls: final(ui).controls,
                    forms: final(ui).forms,
                    drawings: final(ui).drawings,
                    float_work: final(ui).float_work,
                    ..*old(ui)
                })
            },
        },
{
    if args.len() < 1 || args.len() > 6 {
        return Err(arity_error("createshape", "1-6 arguments (form_id, [x, y, width, height, border_style])", args.len()));
    }
    let form = match &args[0] {
        Value::FormObject(id) => id.clone(),
        _ => return Err(expects_error("createshape", "a Form identifier")),
    };
    if ui.forms.find(&form).is_none() {
        return Err(text("Parent form not found"));
    }
    let place = opt_place(&args, SIZE_100, SIZE_100);
    let style = opt_text(&args, 5, "solid");
    let c = boxed_control("shape", &form, String::new(), place, Color { r: 0, g: 0, b: 0, a: 0 }, (false, false),
        SINGLE_ZERO, DockStyle::NoDock, false, text("horizontal"), style);
    let id = new_identifier();
    add_control_as(ui, &form, id.clone(), c);
    let turtle = DrawyState {
        position: (SINGLE_ZERO, SINGLE_ZERO),
        heading: SINGLE_ZERO,
        pen_down: true,
        pen_size: SIZE_2,
        pen_color: Color { r: 0, g: 0, b: 0, a: 255 },
        fill_color: Color { r: 0, g: 0, b: 0, a: 0 },
        speed: SIZE_1,
        fill_path: Vec::new(),
        filling: false,
        path: Vec::new(),
        pending_moves: Vec::new(),
    };
    ui.drawings.insert(id.clone(), turtle);
    ui.float_work.push(FloatWork::CenterTurtle { id: id.clone() });
    proof {
        assert(ui.float_work@.drop_last() =~= old(ui).float_work@);
    }
    Ok(Value::String(id))
}

/// `create_treeview(form, [x, y, width, height])`: an empty, bordered, white tree view.
pub fn create_treeview(ui: &mut Ui, args: Vec<Value>) -> (r: Result<Value, String>)
    ensures
        match creation_error(args@, "create_treeview"@, 1, 5, "1-5 arguments (form_id, [x, y, width, height])"@) {
            Some(m) => fails_with(r, m) && *final(ui) == *old(ui),
            None => if !old(ui).forms@.contains_key(parent_arg(args@)) {
                fails_with(r, "Parent form not found"@) && *final(ui) == *old(ui)
            } else {
                let id = r->Ok_0->String_0;
                let tv = final(ui).treeviews@[id@];
                &&& r matches Ok(Value::String(i)) && control_added(*old(ui), *final(ui), parent_arg(args@), i)
                &&& boxed(made(*final(ui), r), "treeview"@, parent_arg(args@), Seq::empty(), place_from(args@, SIZE_200, SIZE_200),
                    white(), (true, false), SINGLE_ZERO, DockStyle::NoDock, false, "horizontal"@, "solid"@)
                &&& final(ui).treeviews@ == old(ui).treeviews@.insert(id@, tv)
                &&& tv.nodes@ == Seq::<crate::ui::TreeNode>::empty()
                &&& tv.selected_node is None
                &&& *final(ui) == (Ui {
                    controls: final(ui).controls,
                    forms: final(ui).forms,
                    treeviews: final(ui).treeviews,
                    ..*old(ui)
                })
            },
        },
{
    if args.len() < 1 || args.len() > 5 {
        return Err(arity_error("create_treeview", "1-5 arguments (form_id, [x, y, width, height])", args.len()));
    }
    let form = match &args[0] {
        Value::FormObject(id) => id.clone(),
        _ => return Err(expects_error("create_treeview", "a Form identifier")),
    };
    if ui.forms.find(&form).is_none() {
        return Err(text("Parent form not found"));
    }
    let place = opt_place(&args, SIZE_200, SIZE_200);
    let c = boxed_control("treeview", &form, String::new(), place, Color { r: 255, g: 255, b: 255, a: 255 },
        (true, false), SINGLE_ZERO, DockStyle::NoDock, false, text("horizontal"), text("solid"));
    let id = new_identifier();
    add_control_as(ui, &form, id.clone(), c);
    ui.treeviews.insert(id.clone(), TreeViewState { nodes: Vec::new(), selected_node: None });
    Ok(Value::String(id))
}

} // verus!
