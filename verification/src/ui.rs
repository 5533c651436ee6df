//! The state of the user interface that scripts build and query: forms,
//! controls, timers, pages, layouts, drawings and the file dialog, with the
//! rules by which the script functions read and change it. Drawing it on the
//! screen is left to the host.

use vstd::prelude::*;
use crate::registry::Registry;
use crate::text::{arity_message, fails_with, text, arity_error, same_text, decimal, decimal_string};
use crate::value::take_two;
use crate::value::Value;
use crate::pickers::{DateTimePickerState, TimerPickerState};
use crate::messages::MsgBox;

verus! {

/// A colour as red, green, blue and alpha channels.
#[derive(Clone, Copy, Debug, PartialEq, Eq, Structural)]
pub struct Color {
    pub r: u8,
    pub g: u8,
    pub b: u8,
    pub a: u8,
}

/// Opaque black.
pub open spec fn black() -> Color {
    Color { r: 0, g: 0, b: 0, a: 255 }
}

/// Fully transparent.
pub open spec fn transparent() -> Color {
    Color { r: 0, g: 0, b: 0, a: 0 }
}

/// The edge of its container that a control clings to.
#[derive(Clone, Copy, Debug, PartialEq, Eq, Structural)]
pub enum DockStyle {
    /// Not docked.
    NoDock,
    Top,
    Bottom,
    Left,
    Right,
    Fill,
}

/// The icon of a message box.
#[derive(Clone, Copy, Debug, PartialEq, Eq, Structural)]
pub enum MsgBoxIcon {
    /// No icon.
    NoIcon,
    Success,
    Error,
    Info,
    Warning,
}

/// The buttons of a message box.
#[derive(Clone, Copy, Debug, PartialEq, Eq, Structural)]
pub enum MsgBoxButtons {
    /// A single OK button.
    OkOnly,
    YesNo,
    YesNoCancel,
}

/// What the next file dialog will look like.
#[derive(Debug)]
pub struct FileDialogOptions {
    pub title: Option<String>,
    pub multiselect: bool,
    pub startingpath: Option<String>,
    /// Pairs of a filter name and its file extensions.
    pub filters: Option<Vec<(String, Vec<String>)>>,
}

impl FileDialogOptions {
    /// No title, one file at a time, no starting path and no filters.
    pub fn new() -> (r: FileDialogOptions)
        ensures
            r.title is None,
            !r.multiselect,
            r.startingpath is None,
            r.filters is None,
    {
        FileDialogOptions { title: None, multiselect: false, startingpath: None, filters: None }
    }
}

/// The settings of a form. Sizes and positions are `f32` bit patterns.
pub struct FormSettings {
    pub title: String,
    pub width: u32,
    pub height: u32,
    pub visible: bool,
    pub bg_color: Color,
    pub maximized: bool,
    pub fullscreen: bool,
    /// `"centerscreen"` or `"manual"`.
    pub startposition: String,
    pub resizable: bool,
    pub position: Option<(u32, u32)>,
    pub border: bool,
    /// The controls of the form, in the order in which they were added.
    pub controls_order: Vec<String>,
}

/// Where a control stands relative to another one, and how far from it
/// (an `f32` bit pattern).
pub enum LayoutConstraint {
    LeftOf { target_id: String, space: u32 },
    RightOf { target_id: String, space: u32 },
    Above { target_id: String, space: u32 },
    Below { target_id: String, space: u32 },
}

/// Where the text of a control sits within it.
#[derive(Clone, Copy, Debug, PartialEq, Eq, Structural)]
pub enum TextAlign {
    LeftTop,
    CenterTop,
    RightTop,
    LeftCenter,
    CenterCenter,
    RightCenter,
    LeftBottom,
    CenterBottom,
    RightBottom,
}

/// The settings of a control. Sizes and positions are `f32` bit patterns.
pub struct ControlSettings {
    /// `"button"`, `"textbox"`, `"checkbox"`, `"radiobox"`, `"pages"`, ...
    pub control_type: String,
    pub form_id: String,
    pub text: String,
    pub x: u32,
    pub y: u32,
    pub autosize: bool,
    pub width: u32,
    pub height: u32,
    pub fontname: String,
    pub fontsize: u32,
    pub fontweight: String,
    pub forecolor: Color,
    pub backcolor: Color,
    pub visible: bool,
    pub enabled: bool,
    pub text_alignment: TextAlign,
    /// Left, top, right and bottom.
    pub padding: (u32, u32, u32, u32),
    /// Left, top, right and bottom.
    pub margin: (u32, u32, u32, u32),
    pub layout_constraint: Option<LayoutConstraint>,
    pub dock: DockStyle,
    /// What a click calls.
    pub callback: Option<Value>,
    /// What each event of a tree view calls, by event name.
    pub treeview_on_events: Registry<Option<Value>>,
    pub cursor: String,
    pub multiline: bool,
    pub checked: bool,
    /// The radio group of a radio box.
    pub group: Option<String>,
    pub children: Vec<String>,
    pub border: bool,
    pub shadow: bool,
    pub use_as_default_panel: bool,
    pub orientation: String,
    pub border_style: String,
}

/// The `f32` bit pattern of 12.0, the default font size.
pub const FONT_SIZE_DEFAULT: u32 = 0x4140_0000;

impl ControlSettings {
    /// A control of the given kind on the given form, with the default
    /// settings: visible, enabled, not docked, black on transparent, and so on.
    pub fn new(control_type: String, form_id: String) -> (c: ControlSettings)
        ensures
            c.control_type@ == control_type@,
            c.form_id@ == form_id@,
            c.text@ == Seq::<char>::empty(),
            c.x == 0 && c.y == 0 && c.width == 0 && c.height == 0,
            !c.autosize,
            c.fontname@ == "SegoeUI"@,
            c.fontsize == FONT_SIZE_DEFAULT,
            c.fontweight@ == "regular"@,
            c.forecolor == black(),
            c.backcolor == transparent(),
            c.visible,
            c.enabled,
            c.text_alignment == TextAlign::LeftTop,
            c.padding == (0u32, 0u32, 0u32, 0u32),
            c.margin == (0u32, 0u32, 0u32, 0u32),
            c.layout_constraint is None,
            c.dock == DockStyle::NoDock,
            c.callback is None,
            c.treeview_on_events@ == Map::<Seq<char>, Option<Value>>::empty(),
            c.cursor@ == "default"@,
            !c.multiline,
            !c.checked,
            c.group is None,
            c.children@ == Seq::<String>::empty(),
            !c.border,
            !c.shadow,
            !c.use_as_default_panel,
            c.orientation@ == "horizontal"@,
            c.border_style@ == "solid"@,
    {
        ControlSettings {
            control_type,
            form_id,
            text: String::new(),
            x: 0,
            y: 0,
            autosize: false,
            width: 0,
            height: 0,
            fontname: text("SegoeUI"),
            fontsize: FONT_SIZE_DEFAULT,
            fontweight: text("regular"),
            forecolor: Color { r: 0, g: 0, b: 0, a: 255 },
            backcolor: Color { r: 0, g: 0, b: 0, a: 0 },
            visible: true,
            enabled: true,
            text_alignment: TextAlign::LeftTop,
            padding: (0, 0, 0, 0),
            margin: (0, 0, 0, 0),
            layout_constraint: None,
            dock: DockStyle::NoDock,
            callback: None,
            treeview_on_events: Registry::new(),
            cursor: text("default"),
            multiline: false,
            checked: false,
            group: None,
            children: Vec::new(),
            border: false,
            shadow: false,
            use_as_default_panel: false,
            orientation: text("horizontal"),
            border_style: text("solid"),
        }
    }
}

#[verifier::external_type_specification]
#[verifier::external_body]
pub struct ExInstant(std::time::Instant);

/// `Instant::now()`: a moment of the clock; nothing is known of which.
#[verifier::external_body]
pub(crate) fn now() -> (t: std::time::Instant) {
    std::time::Instant::now()
}

/// A timer that calls back at a fixed interval.
pub struct TimerState {
    pub enabled: bool,
    /// Milliseconds between two ticks.
    pub interval: u32,
    pub last_tick: Option<std::time::Instant>,
    pub callback: Option<Value>,
}

/// One page of a pages control.
pub struct Page {
    pub title: String,
    pub control_ids: Vec<String>,
}

/// A pages control: its pages, the one shown, and the fade between them.
pub struct PagesState {
    pub pages: Vec<Page>,
    pub active_page_index: usize,
    /// Opacity of the page being faded in, as an `f32` bit pattern.
    pub transition_alpha: u32,
    pub in_transition: bool,
    pub transition_start_time: Option<std::time::Instant>,
    pub use_transition: bool,
}

/// The `f32` bit pattern of 0.0.
pub const ALPHA_CLEAR: u32 = 0;

/// The `f32` bit pattern of 1.0.
pub const ALPHA_OPAQUE: u32 = 0x3f80_0000;

/// A grid layout: its size, and the control in each cell.
pub struct GridLayoutState {
    pub rows: usize,
    pub cols: usize,
    pub spacing: u32,
    pub cell_controls: Vec<Vec<Option<String>>>,
    pub show_grid_lines: bool,
    pub line_color: Color,
    pub line_thickness: u32,
}

/// A drawing turtle. Positions, angles and sizes are `f32` bit patterns.
pub struct DrawyState {
    pub position: (u32, u32),
    pub heading: u32,
    pub pen_down: bool,
    pub pen_size: u32,
    pub pen_color: Color,
    pub fill_color: Color,
    pub speed: u32,
    /// The corners of the shape being filled.
    pub fill_path: Vec<(u32, u32)>,
    pub filling: bool,
    /// The lines drawn: from, to, pen size and colour.
    pub path: Vec<((u32, u32), (u32, u32), u32, Color)>,
    /// The lines still to be drawn slowly, as `path` holds them.
    pub pending_moves: Vec<((u32, u32), (u32, u32), u32, Color)>,
}

/// Whether a bar lies across or upright.
#[derive(Clone, Copy, Debug, PartialEq, Eq, Structural)]
pub enum Orientation {
    Horizontal,
    Vertical,
}

/// A scroll bar. Values are `f32` bit patterns.
pub struct ScrollBarState {
    pub value: u32,
    pub min: u32,
    pub max: u32,
    pub large_change: u32,
    pub small_change: u32,
    pub orientation: Orientation,
}

/// How a picture fills its box.
#[derive(Clone, Copy, Debug, PartialEq, Eq, Structural)]
pub enum SizeMode {
    Normal,
    Stretch,
    Zoom,
}

/// A picture box: the image file shown, and whether its pixels are loaded.
pub struct PictureBoxState {
    pub image_path: Option<String>,
    pub size_mode: SizeMode,
    pub texture_loaded: bool,
}

/// An image button: the image file shown, and whether its pixels are loaded.
pub struct ImageButtonState {
    pub image_path: Option<String>,
    pub texture_loaded: bool,
}

/// How a progress bar shows its progress.
#[derive(Clone, Copy, Debug, PartialEq, Eq, Structural)]
pub enum BarStyle {
    Solid,
    Marquee,
}

/// A progress bar. Values are `f32` bit patterns.
pub struct ProgressBarState {
    pub value: u32,
    pub min: u32,
    pub max: u32,
    pub bar_color: Color,
    pub style: BarStyle,
}

/// A slider. Values are `f32` bit patterns.
pub struct SliderState {
    pub value: u32,
    pub min: u32,
    pub max: u32,
    pub orientation: Orientation,
}

/// A number box. Values are numbers (binary64 bit patterns).
pub struct NumberBoxState {
    pub value: u64,
    pub min: u64,
    pub max: u64,
    pub increment: u64,
    /// Digits shown after the decimal point.
    pub decimals: usize,
}

/// A node of a tree view, with the nodes under it.
pub struct TreeNode {
    pub id: String,
    pub text: String,
    pub children: Vec<TreeNode>,
    pub expanded: bool,
    pub icon: Option<String>,
    /// The state of the node's checkbox, when it has one.
    pub checkbox: Option<bool>,
}

/// A tree view: its top nodes and the node selected, by identifier.
pub struct TreeViewState {
    pub nodes: Vec<TreeNode>,
    pub selected_node: Option<String>,
}

/// A row or column of controls: the space between them (an `f32` bit pattern).
pub struct LineLayoutState {
    pub spacing: u32,
}

/// A flow of controls: the space between them (an `f32` bit pattern), and
/// whether they wrap to the next line.
pub struct FlowLayoutState {
    pub spacing: u32,
    pub wrap: bool,
}

/// Work in single precision that the window loop does for the library.
pub enum FloatWork {
    /// Add `dx` and `dy` to the position of the control `id`.
    Shift { id: String, dx: u32, dy: u32 },
    /// Put the turtle of the shape `id` at the centre of the shape.
    CenterTurtle { id: String },
    /// Turn the turtle of the shape `id` by `degrees`: to the left, adding to its
    /// heading modulo 360, or to the right, taking away from it.
    Turn { id: String, degrees: u32, left: bool },
    /// Move the turtle of the shape `id` ahead by `distance`.
    Forward { id: String, distance: u32 },
    /// Move the turtle of the shape `id` to `(x, y)` from the corner of the shape.
    Goto { id: String, x: u32, y: u32 },
    /// Move the turtle of the shape `id` round a circle of `radius` through
    /// `extent` degrees.
    Circle { id: String, radius: u32, extent: u32 },
}

/// A rich text: its text, and the stretches of it (from a byte offset to
/// another) marked italic or not.
pub struct RichTextState {
    pub text: String,
    pub formats: Vec<(usize, usize, bool)>,
}

/// An item of a tool bar: its text, its icon file, and what it calls.
pub struct ToolbarItem {
    pub text: String,
    pub icon: Option<String>,
    pub callback: Option<Value>,
}

/// A tool bar: its items, in order.
pub struct ToolbarState {
    pub items: Vec<ToolbarItem>,
}

/// A status bar: its text.
pub struct StatusBarState {
    pub text: String,
}

/// The colours that a colour dialog offers.
#[derive(Clone, Copy, Debug, PartialEq, Eq, Structural)]
pub enum ColorDialogMode {
    Basic,
    Advanced,
    Web,
}

/// A colour dialog: the colour chosen, the one being chosen, and how it shows.
pub struct ColorDialogState {
    pub selected_color: Color,
    pub temp_color: Color,
    pub is_open: bool,
    pub confirmed: bool,
    pub show_advanced: bool,
    pub show_web_colors: bool,
    pub mode: ColorDialogMode,
}

/// An item of a menu: its label, icon file and callback, the items under
/// it, and whether it is a separator.
pub struct MenuItem {
    pub label: String,
    pub icon: Option<String>,
    pub callback: Option<Value>,
    pub children: Vec<MenuItem>,
    pub is_separator: bool,
}

/// A menu bar: its items, and whether it is open.
pub struct MenuState {
    pub items: Vec<MenuItem>,
    pub is_open: bool,
}

/// A table: its header texts and rows of cell texts, and how it shows them.
pub struct TableState {
    pub rows: Vec<Vec<String>>,
    pub headers: Vec<String>,
    /// The height of a row (an `f32` bit pattern).
    pub row_height: u32,
    pub scroll_to_row: Option<usize>,
    pub sort_column: Option<usize>,
    pub sort_ascending: bool,
}

/// The items of a list box or combo box, and the index of the one selected.
pub struct ListState {
    pub items: Vec<Value>,
    pub selected_index: usize,
}

/// The whole state of the user interface.
pub struct Ui {
    pub forms: Registry<FormSettings>,
    /// Whether each form is shown on the screen, as the window loop sees it.
    pub form_visibilities: Registry<bool>,
    pub controls: Registry<ControlSettings>,
    /// For each form, the selected radio box of each radio group.
    pub radio_selections: Registry<Registry<String>>,
    pub timers: Registry<TimerState>,
    pub pages: Registry<PagesState>,
    pub grids: Registry<GridLayoutState>,
    pub drawings: Registry<DrawyState>,
    pub scrollbars: Registry<ScrollBarState>,
    pub treeviews: Registry<TreeViewState>,
    pub pictureboxes: Registry<PictureBoxState>,
    pub imagebuttons: Registry<ImageButtonState>,
    pub progressbars: Registry<ProgressBarState>,
    pub sliders: Registry<SliderState>,
    pub numberboxes: Registry<NumberBoxState>,
    pub listboxes: Registry<ListState>,
    pub comboboxes: Registry<ListState>,
    pub hlayouts: Registry<LineLayoutState>,
    pub vlayouts: Registry<LineLayoutState>,
    pub flowlayouts: Registry<FlowLayoutState>,
    pub richtexts: Registry<RichTextState>,
    pub menus: Registry<MenuState>,
    pub tables: Registry<TableState>,
    pub toolbars: Registry<ToolbarState>,
    pub statusbars: Registry<StatusBarState>,
    pub colordialogs: Registry<ColorDialogState>,
    pub datetimepickers: Registry<DateTimePickerState>,
    pub timerpickers: Registry<TimerPickerState>,
    pub msgboxes: Registry<MsgBox>,
    /// The texts of text boxes that the window must show anew, in order.
    pub text_updates_due: Vec<(String, String)>,
    /// The work in single precision that is due, in order.
    pub float_work: Vec<FloatWork>,
    /// The number boxes whose text must be written anew from their value,
    /// with their number of decimals, in the order in which they changed.
    pub number_texts_due: Vec<String>,
    /// The options of the next file dialog.
    pub dialog_options: FileDialogOptions,
    /// What each finished dialog gave: a path, or nothing when it was cancelled.
    pub dialog_results: Registry<Option<String>>,
    /// Whether the window loop runs and listens for the exit signal.
    pub running: bool,
    /// Whether the window loop has been told to end.
    pub exit_requested: bool,
}

impl Ui {
    /// A user interface with nothing in it, its window loop not running.
    pub fn new() -> (u: Ui)
        ensures
            u.forms@ == Map::<Seq<char>, FormSettings>::empty(),
            u.form_visibilities@ == Map::<Seq<char>, bool>::empty(),
            u.controls@ == Map::<Seq<char>, ControlSettings>::empty(),
            u.radio_selections@ == Map::<Seq<char>, Registry<String>>::empty(),
            u.timers@ == Map::<Seq<char>, TimerState>::empty(),
            u.pages@ == Map::<Seq<char>, PagesState>::empty(),
            u.grids@ == Map::<Seq<char>, GridLayoutState>::empty(),
            u.drawings@ == Map::<Seq<char>, DrawyState>::empty(),
            u.scrollbars@ == Map::<Seq<char>, ScrollBarState>::empty(),
            u.treeviews@ == Map::<Seq<char>, TreeViewState>::empty(),
            u.pictureboxes@ == Map::<Seq<char>, PictureBoxState>::empty(),
            u.imagebuttons@ == Map::<Seq<char>, ImageButtonState>::empty(),
            u.progressbars@ == Map::<Seq<char>, ProgressBarState>::empty(),
            u.sliders@ == Map::<Seq<char>, SliderState>::empty(),
            u.numberboxes@ == Map::<Seq<char>, NumberBoxState>::empty(),
            u.listboxes@ == Map::<Seq<char>, ListState>::empty(),
            u.comboboxes@ == Map::<Seq<char>, ListState>::empty(),
            u.hlayouts@ == Map::<Seq<char>, LineLayoutState>::empty(),
            u.vlayouts@ == Map::<Seq<char>, LineLayoutState>::empty(),
            u.flowlayouts@ == Map::<Seq<char>, FlowLayoutState>::empty(),
            u.richtexts@ == Map::<Seq<char>, RichTextState>::empty(),
            u.menus@ == Map::<Seq<char>, MenuState>::empty(),
            u.tables@ == Map::<Seq<char>, TableState>::empty(),
            u.toolbars@ == Map::<Seq<char>, ToolbarState>::empty(),
            u.statusbars@ == Map::<Seq<char>, StatusBarState>::empty(),
            u.colordialogs@ == Map::<Seq<char>, ColorDialogState>::empty(),
            u.datetimepickers@ == Map::<Seq<char>, DateTimePickerState>::empty(),
            u.timerpickers@ == Map::<Seq<char>, TimerPickerState>::empty(),
            u.msgboxes@ == Map::<Seq<char>, MsgBox>::empty(),
            u.text_updates_due@ == Seq::<(String, String)>::empty(),
            u.float_work@ == Seq::<FloatWork>::empty(),
            u.number_texts_due@ == Seq::<String>::empty(),
            u.dialog_options.title is None,
            !u.dialog_options.multiselect,
            u.dialog_options.startingpath is None,
            u.dialog_options.filters is None,
            u.dialog_results@ == Map::<Seq<char>, Option<String>>::empty(),
            !u.running,
            !u.exit_requested,
    {
        Ui {
            forms: Registry::new(),
            form_visibilities: Registry::new(),
            controls: Registry::new(),
            radio_selections: Registry::new(),
            timers: Registry::new(),
            pages: Registry::new(),
            grids: Registry::new(),
            drawings: Registry::new(),
            scrollbars: Registry::new(),
            treeviews: Registry::new(),
            pictureboxes: Registry::new(),
            imagebuttons: Registry::new(),
            progressbars: Registry::new(),
            sliders: Registry::new(),
            numberboxes: Registry::new(),
            listboxes: Registry::new(),
            comboboxes: Registry::new(),
            hlayouts: Registry::new(),
            vlayouts: Registry::new(),
            flowlayouts: Registry::new(),
            richtexts: Registry::new(),
            menus: Registry::new(),
            tables: Registry::new(),
            toolbars: Registry::new(),
            statusbars: Registry::new(),
            colordialogs: Registry::new(),
            datetimepickers: Registry::new(),
            timerpickers: Registry::new(),
            msgboxes: Registry::new(),
            text_updates_due: Vec::new(),
            float_work: Vec::new(),
            number_texts_due: Vec::new(),
            dialog_options: FileDialogOptions::new(),
            dialog_results: Registry::new(),
            running: false,
            exit_requested: false,
        }
    }

    /// This state with other forms.
    pub open spec fn with_forms(self, f: Registry<FormSettings>) -> Ui {
        Ui { forms: f, ..self }
    }

    /// This state with other controls.
    pub open spec fn with_controls(self, c: Registry<ControlSettings>) -> Ui {
        Ui { controls: c, ..self }
    }
}

/// `"<name>() expects <what>"`.
pub open spec fn expects(name: Seq<char>, what: Seq<char>) -> Seq<char> {
    name + "() expects "@ + what
}

/// The error for an argument of the wrong kind.
pub fn expects_error(name: &str, what: &str) -> (s: String)
    ensures
        s@ == expects(name@, what@),
{
    let mut s = String::from_str(name);
    s.append("() expects ");
    s.append(what);
    s
}

/// The arguments of a call that sets a yes/no property of a form: the error
/// that they give, if any.
pub open spec fn form_flag_error(args: Seq<Value>, name: Seq<char>) -> Option<Seq<char>> {
    if args.len() != 2 {
        Some(arity_message(name, "2 arguments"@, args.len()))
    } else if !(args[0] is FormObject) {
        Some(expects(name, "a Form identifier"@))
    } else if !(args[1] is Bool) {
        Some(expects(name, "a boolean"@))
    } else {
        None
    }
}

/// The arguments of a call that reads a property of a form: the error that
/// they give, if any.
pub open spec fn form_query_error(args: Seq<Value>, name: Seq<char>) -> Option<Seq<char>> {
    if args.len() != 1 {
        Some(arity_message(name, "1 argument"@, args.len()))
    } else if !(args[0] is FormObject) {
        Some(expects(name, "a Form identifier"@))
    } else {
        None
    }
}

/// The form that the first argument names.
pub open spec fn form_arg(args: Seq<Value>) -> Seq<char> {
    match args[0] {
        Value::FormObject(id) => id@,
        _ => Seq::empty(),
    }
}

/// The yes/no value of the second argument.
pub open spec fn flag_arg(args: Seq<Value>) -> bool {
    match args[1] {
        Value::Bool(b) => b,
        _ => false,
    }
}

/// `set_maximized(form, flag)`.
pub fn set_maximized(ui: &mut Ui, args: Vec<Value>) -> (r: Result<Value, String>)
    ensures
        form_flag_effect(*old(ui), *final(ui), args@, "set_maximized"@, r,
            |f: FormSettings, b: bool| FormSettings { maximized: b, ..f }),
{
    if args.len() != 2 {
        return Err(arity_error("set_maximized", "2 arguments", args.len()));
    }
    let id = match &args[0] {
        Value::FormObject(id) => id,
        _ => return Err(expects_error("set_maximized", "a Form identifier")),
    };
    let b = match &args[1] {
        Value::Bool(b) => *b,
        _ => return Err(expects_error("set_maximized", "a boolean")),
    };
    match ui.forms.find(id) {
        Some(i) => {
            let f = ui.forms.value_mut(i);
            f.maximized = b;
            Ok(Value::Null)
        },
        None => Err(text("Form not found")),
    }
}

/// Looks up the form of a call, for a getter.
fn form_of<'a>(ui: &'a Ui, id: &String) -> (r: Result<&'a FormSettings, String>)
    ensures
        ui.forms@.contains_key(id@) ==> (r matches Ok(f) && *f == ui.forms@[id@]),
        !ui.forms@.contains_key(id@) ==> fails_with(r, "Form not found"@),
{
    match ui.forms.get(id) {
        Some(f) => Ok(f),
        None => Err(text("Form not found")),
    }
}

/// What a call that reads a form property gives: the error of its
/// arguments, "Form not found", or `Ok(v)` with `v` taken from the form.
pub open spec fn form_query_result(
    ui: Ui,
    args: Seq<Value>,
    name: Seq<char>,
    r: Result<Value, String>,
    read: spec_fn(FormSettings) -> Value,
) -> bool {
    match form_query_error(args, name) {
        Some(m) => fails_with(r, m),
        None => {
            let id = form_arg(args);
            if ui.forms@.contains_key(id) {
                r == Ok::<Value, String>(read(ui.forms@[id]))
            } else {
                fails_with(r, "Form not found"@)
            }
        },
    }
}

/// What a call that sets a yes/no form property does: the error of its
/// arguments, "Form not found", or `Ok(Null)` with the form changed by `set`.
pub open spec fn form_flag_effect(
    before: Ui,
    after: Ui,
    args: Seq<Value>,
    name: Seq<char>,
    r: Result<Value, String>,
    set: spec_fn(FormSettings, bool) -> FormSettings,
) -> bool {
    match form_flag_error(args, name) {
        Some(m) => fails_with(r, m) && after == before,
        None => {
            let id = form_arg(args);
            if before.forms@.contains_key(id) {
                &&& r == Ok::<Value, String>(Value::Null)
                &&& after.forms@ == before.forms@.insert(id, set(before.forms@[id], flag_arg(args)))
                &&& after == before.with_forms(after.forms)
            } else {
                fails_with(r, "Form not found"@) && after == before
            }
        },
    }
}

/// `get_maximized(form)`.
pub fn get_maximized(ui: &Ui, args: Vec<Value>) -> (r: Result<Value, String>)
    ensures
        form_query_result(*ui, args@, "get_maximized"@, r, |f: FormSettings| Value::Bool(f.maximized)),
{
    if args.len() != 1 {
        return Err(arity_error("get_maximized", "1 argument", args.len()));
    }
    let id = match &args[0] {
        Value::FormObject(id) => id,
        _ => return Err(expects_error("get_maximized", "a Form identifier")),
    };
    let f = form_of(ui, id)?;
    Ok(Value::Bool(f.maximized))
}

/// `set_fullscreen(form, flag)`.
pub fn set_fullscreen(ui: &mut Ui, args: Vec<Value>) -> (r: Result<Value, String>)
    ensures
        form_flag_effect(*old(ui), *final(ui), args@, "set_fullscreen"@, r,
            |f: FormSettings, b: bool| FormSettings { fullscreen: b, ..f }),
{
    if args.len() != 2 {
        return Err(arity_error("set_fullscreen", "2 arguments", args.len()));
    }
    let id = match &args[0] {
        Value::FormObject(id) => id,
        _ => return Err(expects_error("set_fullscreen", "a Form identifier")),
    };
    let b = match &args[1] {
        Value::Bool(b) => *b,
        _ => return Err(expects_error("set_fullscreen", "a boolean")),
    };
    match ui.forms.find(id) {
        Some(i) => {
            let f = ui.forms.value_mut(i);
            f.fullscreen = b;
            Ok(Value::Null)
        },
        None => Err(text("Form not found")),
    }
}

/// `get_fullscreen(form)`.
pub fn get_fullscreen(ui: &Ui, args: Vec<Value>) -> (r: Result<Value, String>)
    ensures
        form_query_result(*ui, args@, "get_fullscreen"@, r, |f: FormSettings| Value::Bool(f.fullscreen)),
{
    if args.len() != 1 {
        return Err(arity_error("get_fullscreen", "1 argument", args.len()));
    }
    let id = match &args[0] {
        Value::FormObject(id) => id,
        _ => return Err(expects_error("get_fullscreen", "a Form identifier")),
    };
    let f = form_of(ui, id)?;
    Ok(Value::Bool(f.fullscreen))
}

/// `set_resizable(form, flag)`.
pub fn set_resizable(ui: &mut Ui, args: Vec<Value>) -> (r: Result<Value, String>)
    ensures
        form_flag_effect(*old(ui), *final(ui), args@, "set_resizable"@, r,
            |f: FormSettings, b: bool| FormSettings { resizable: b, ..f }),
{
    if args.len() != 2 {
        return Err(arity_error("set_resizable", "2 arguments", args.len()));
    }
    let id = match &args[0] {
        Value::FormObject(id) => id,
        _ => return Err(expects_error("set_resizable", "a Form identifier")),
    };
    let b = match &args[1] {
        Value::Bool(b) => *b,
        _ => return Err(expects_error("set_resizable", "a boolean")),
    };
    match ui.forms.find(id) {
        Some(i) => {
            let f = ui.forms.value_mut(i);
            f.resizable = b;
            Ok(Value::Null)
        },
        None => Err(text("Form not found")),
    }
}

/// `get_resizable(form)`.
pub fn get_resizable(ui: &Ui, args: Vec<Value>) -> (r: Result<Value, String>)
    ensures
        form_query_result(*ui, args@, "get_resizable"@, r, |f: FormSettings| Value::Bool(f.resizable)),
{
    if args.len() != 1 {
        return Err(arity_error("get_resizable", "1 argument", args.len()));
    }
    let id = match &args[0] {
        Value::FormObject(id) => id,
        _ => return Err(expects_error("get_resizable", "a Form identifier")),
    };
    let f = form_of(ui, id)?;
    Ok(Value::Bool(f.resizable))
}

/// `set_border(form, flag)`.
pub fn set_border(ui: &mut Ui, args: Vec<Value>) -> (r: Result<Value, String>)
    ensures
        form_flag_effect(*old(ui), *final(ui), args@, "set_border"@, r,
            |f: FormSettings, b: bool| FormSettings { border: b, ..f }),
{
    if args.len() != 2 {
        return Err(arity_error("set_border", "2 arguments", args.len()));
    }
    let id = match &args[0] {
        Value::FormObject(id) => id,
        _ => return Err(expects_error("set_border", "a Form identifier")),
    };
    let b = match &args[1] {
        Value::Bool(b) => *b,
        _ => return Err(expects_error("set_border", "a boolean")),
    };
    match ui.forms.find(id) {
        Some(i) => {
            let f = ui.forms.value_mut(i);
            f.border = b;
            Ok(Value::Null)
        },
        None => Err(text("Form not found")),
    }
}

/// `get_border(form)`.
pub fn get_border(ui: &Ui, args: Vec<Value>) -> (r: Result<Value, String>)
    ensures
        form_query_result(*ui, args@, "get_border"@, r, |f: FormSettings| Value::Bool(f.border)),
{
    if args.len() != 1 {
        return Err(arity_error("get_border", "1 argument", args.len()));
    }
    let id = match &args[0] {
        Value::FormObject(id) => id,
        _ => return Err(expects_error("get_border", "a Form identifier")),
    };
    let f = form_of(ui, id)?;
    Ok(Value::Bool(f.border))
}

/// The start positions that a form accepts.
pub open spec fn is_start_position(s: Seq<char>) -> bool {
    s == "centerscreen"@ || s == "manual"@
}

/// `set_startposition(form, "centerscreen" | "manual")`.
pub fn set_startposition(ui: &mut Ui, args: Vec<Value>) -> (r: Result<Value, String>)
    ensures
        args.len() != 2 ==> fails_with(r, arity_message("set_startposition"@, "2 arguments"@, args.len() as nat))
            && *final(ui) == *old(ui),
        args.len() == 2 ==> match (args@[0], args@[1]) {
            (Value::FormObject(id), Value::String(s)) => if !is_start_position(s@) {
                fails_with(r, "startposition must be 'centerscreen' or 'manual'"@) && *final(ui) == *old(ui)
            } else if old(ui).forms@.contains_key(id@) {
                &&& r == Ok::<Value, String>(Value::Null)
                &&& final(ui).forms@ == old(ui).forms@.insert(
                    id@,
                    FormSettings { startposition: s, ..old(ui).forms@[id@] },
                )
                &&& *final(ui) == old(ui).with_forms(final(ui).forms)
            } else {
                fails_with(r, "Form not found"@) && *final(ui) == *old(ui)
            },
            (Value::FormObject(_), _) => fails_with(r, expects("set_startposition"@, "a string"@))
                && *final(ui) == *old(ui),
            _ => fails_with(r, expects("set_startposition"@, "a Form identifier"@)) && *final(ui) == *old(ui),
        },
{
    if args.len() != 2 {
        return Err(arity_error("set_startposition", "2 arguments", args.len()));
    }
    let (a, b) = take_two(args);
    let id = match a {
        Value::FormObject(id) => id,
        _ => return Err(expects_error("set_startposition", "a Form identifier")),
    };
    let s = match b {
        Value::String(s) => s,
        _ => return Err(expects_error("set_startposition", "a string")),
    };
    if !same_text(&s, "centerscreen") && !same_text(&s, "manual") {
        return Err(text("startposition must be 'centerscreen' or 'manual'"));
    }
    match ui.forms.find(&id) {
        Some(i) => {
            let f = ui.forms.value_mut(i);
            f.startposition = s;
            Ok(Value::Null)
        },
        None => Err(text("Form not found")),
    }
}

/// `get_startposition(form)`.
pub fn get_startposition(ui: &Ui, args: Vec<Value>) -> (r: Result<Value, String>)
    ensures
        match form_query_error(args@, "get_startposition"@) {
            Some(m) => fails_with(r, m),
            None => {
                let id = form_arg(args@);
                if ui.forms@.contains_key(id) {
                    r matches Ok(Value::String(s)) && s@ == ui.forms@[id].startposition@
                } else {
                    fails_with(r, "Form not found"@)
                }
            },
        },
{
    if args.len() != 1 {
        return Err(arity_error("get_startposition", "1 argument", args.len()));
    }
    let id = match &args[0] {
        Value::FormObject(id) => id,
        _ => return Err(expects_error("get_startposition", "a Form identifier")),
    };
    let f = form_of(ui, id)?;
    Ok(Value::String(f.startposition.clone()))
}

/// What a call that takes one form and changes it does: the error of its
/// arguments, "Form not found", or `Ok(Null)` with the form changed by `set`.
pub open spec fn form_change_effect(
    before: Ui,
    after: Ui,
    args: Seq<Value>,
    name: Seq<char>,
    r: Result<Value, String>,
    set: spec_fn(FormSettings) -> FormSettings,
) -> bool {
    match form_query_error(args, name) {
        Some(m) => fails_with(r, m) && after == before,
        None => {
            let id = form_arg(args);
            if before.forms@.contains_key(id) {
                &&& r == Ok::<Value, String>(Value::Null)
                &&& after.forms@ == before.forms@.insert(id, set(before.forms@[id]))
                &&& after == before.with_forms(after.forms)
            } else {
                fails_with(r, "Form not found"@) && after == before
            }
        },
    }
}

/// `show_form(form)`: the form becomes visible, and so does its window.
pub fn show_form(ui: &mut Ui, args: Vec<Value>) -> (r: Result<Value, String>)
    ensures
        match form_query_error(args@, "show_form"@) {
            Some(m) => fails_with(r, m) && *final(ui) == *old(ui),
            None => {
                let id = form_arg(args@);
                if old(ui).forms@.contains_key(id) {
                    &&& r == Ok::<Value, String>(Value::Null)
                    &&& final(ui).forms@ == old(ui).forms@.insert(
                        id,
                        FormSettings { visible: true, ..old(ui).forms@[id] },
                    )
                    &&& final(ui).form_visibilities@ == if old(ui).form_visibilities@.contains_key(id) {
                        old(ui).form_visibilities@.insert(id, true)
                    } else {
                        old(ui).form_visibilities@
                    }
                    &&& *final(ui) == (Ui {
                        forms: final(ui).forms,
                        form_visibilities: final(ui).form_visibilities,
                        ..*old(ui)
                    })
                } else {
                    fails_with(r, "Form not found"@) && *final(ui) == *old(ui)
                }
            },
        },
{
    if args.len() != 1 {
        return Err(arity_error("show_form", "1 argument", args.len()));
    }
    let id = match &args[0] {
        Value::FormObject(id) => id,
        _ => return Err(expects_error("show_form", "a Form identifier")),
    };
    match ui.forms.find(id) {
        Some(i) => {
            let f = ui.forms.value_mut(i);
            f.visible = true;
            match ui.form_visibilities.find(id) {
                Some(j) => {
                    let v = ui.form_visibilities.value_mut(j);
                    *v = true;
                },
                None => {},
            }
            Ok(Value::Null)
        },
        None => Err(text("Form not found")),
    }
}

/// `hide_form(form)`.
pub fn hide_form(ui: &mut Ui, args: Vec<Value>) -> (r: Result<Value, String>)
    ensures
        form_change_effect(*old(ui), *final(ui), args@, "hide_form"@, r,
            |f: FormSettings| FormSettings { visible: false, ..f }),
{
    if args.len() != 1 {
        return Err(arity_error("hide_form", "1 argument", args.len()));
    }
    let id = match &args[0] {
        Value::FormObject(id) => id,
        _ => return Err(expects_error("hide_form", "a Form identifier")),
    };
    match ui.forms.find(id) {
        Some(i) => {
            let f = ui.forms.value_mut(i);
            f.visible = false;
            Ok(Value::Null)
        },
        None => Err(text("Form not found")),
    }
}

/// `restore_form(form)`: neither maximized nor full screen.
pub fn restore_form(ui: &mut Ui, args: Vec<Value>) -> (r: Result<Value, String>)
    ensures
        form_change_effect(*old(ui), *final(ui), args@, "restore_form"@, r,
            |f: FormSettings| FormSettings { maximized: false, fullscreen: false, ..f }),
{
    if args.len() != 1 {
        return Err(arity_error("restore_form", "1 argument", args.len()));
    }
    let id = match &args[0] {
        Value::FormObject(id) => id,
        _ => return Err(expects_error("restore_form", "a Form identifier")),
    };
    match ui.forms.find(id) {
        Some(i) => {
            let f = ui.forms.value_mut(i);
            f.maximized = false;
            f.fullscreen = false;
            Ok(Value::Null)
        },
        None => Err(text("Form not found")),
    }
}

/// `close_form(form)`: the form is forgotten.
pub fn close_form(ui: &mut Ui, args: Vec<Value>) -> (r: Result<Value, String>)
    ensures
        match form_query_error(args@, "close_form"@) {
            Some(m) => fails_with(r, m) && *final(ui) == *old(ui),
            None => {
                let id = form_arg(args@);
                &&& final(ui).forms@ == old(ui).forms@.remove(id)
                &&& *final(ui) == old(ui).with_forms(final(ui).forms)
                &&& if old(ui).forms@.contains_key(id) {
                    r == Ok::<Value, String>(Value::Null)
                } else {
                    fails_with(r, "Form not found"@)
                }
            },
        },
{
    if args.len() != 1 {
        return Err(arity_error("close_form", "1 argument", args.len()));
    }
    let id = match &args[0] {
        Value::FormObject(id) => id,
        _ => return Err(expects_error("close_form", "a Form identifier")),
    };
    if ui.forms.remove(id) {
        Ok(Value::Null)
    } else {
        Err(text("Form not found"))
    }
}

/// `exit()`: tells the running window loop to end.
pub fn exit(ui: &mut Ui, args: Vec<Value>) -> (r: Result<Value, String>)
    ensures
        args.len() != 0 ==> fails_with(r, arity_message("exit"@, "0 arguments"@, args.len() as nat))
            && *final(ui) == *old(ui),
        args.len() == 0 && old(ui).running ==> r == Ok::<Value, String>(Value::Null)
            && *final(ui) == (Ui { exit_requested: true, ..*old(ui) }),
        args.len() == 0 && !old(ui).running ==> fails_with(r, "Application not running"@)
            && *final(ui) == *old(ui),
{
    if args.len() != 0 {
        return Err(arity_error("exit", "0 arguments", args.len()));
    }
    if ui.running {
        ui.exit_requested = true;
        Ok(Value::Null)
    } else {
        Err(text("Application not running"))
    }
}

/// The text in lower case, as `str::to_lowercase` gives it.
pub uninterp spec fn lowercase_text(s: Seq<char>) -> Seq<char>;

/// `str::to_lowercase`: its result is named `lowercase_text` of the text.
#[verifier::external_body]
pub(crate) fn lowercase(s: &String) -> (r: String)
    ensures
        r@ == lowercase_text(s@),
{
    s.to_lowercase()
}

/// The control that the first argument names.
pub open spec fn control_arg(args: Seq<Value>) -> Seq<char> {
    match args[0] {
        Value::String(id) => id@,
        _ => Seq::empty(),
    }
}

/// The arguments of a call on one control with no other argument: the
/// error that they give, if any.
pub open spec fn control_query_error(args: Seq<Value>, name: Seq<char>, arity: Seq<char>) -> Option<Seq<char>> {
    if args.len() != 1 {
        Some(arity_message(name, arity, args.len()))
    } else if !(args[0] is String) {
        Some(expects(name, "a control identifier"@))
    } else {
        None
    }
}

/// The arguments of a call that sets a yes/no property of a control: the
/// error that they give, if any.
pub open spec fn control_flag_error(args: Seq<Value>, name: Seq<char>, arity: Seq<char>) -> Option<Seq<char>> {
    if args.len() != 2 {
        Some(arity_message(name, arity, args.len()))
    } else if !(args[0] is String) {
        Some(expects(name, "a control identifier"@))
    } else if !(args[1] is Bool) {
        Some(expects(name, "a boolean"@))
    } else {
        None
    }
}

/// What a call that reads a control property gives: the error of its
/// arguments, "Control not found", `kind_error` where `applies` does not
/// hold of the control, else `Ok(read(control))`.
pub open spec fn control_query_result(
    ui: Ui,
    args: Seq<Value>,
    name: Seq<char>,
    arity: Seq<char>,
    r: Result<Value, String>,
    applies: spec_fn(ControlSettings) -> bool,
    kind_error: Seq<char>,
    read: spec_fn(ControlSettings) -> Value,
) -> bool {
    match control_query_error(args, name, arity) {
        Some(m) => fails_with(r, m),
        None => {
            let id = control_arg(args);
            if !ui.controls@.contains_key(id) {
                fails_with(r, "Control not found"@)
            } else if !applies(ui.controls@[id]) {
                fails_with(r, kind_error)
            } else {
                r == Ok::<Value, String>(read(ui.controls@[id]))
            }
        },
    }
}

/// What a call that sets a yes/no control property does: the error of its
/// arguments, "Control not found", `kind_error` where `applies` does not
/// hold of the control, else `Ok(Null)` with the control changed by `set`.
pub open spec fn control_flag_effect(
    before: Ui,
    after: Ui,
    args: Seq<Value>,
    name: Seq<char>,
    arity: Seq<char>,
    r: Result<Value, String>,
    applies: spec_fn(ControlSettings) -> bool,
    kind_error: Seq<char>,
    set: spec_fn(ControlSettings, bool) -> ControlSettings,
) -> bool {
    match control_flag_error(args, name, arity) {
        Some(m) => fails_with(r, m) && after == before,
        None => {
            let id = control_arg(args);
            if !before.controls@.contains_key(id) {
                fails_with(r, "Control not found"@) && after == before
            } else if !applies(before.controls@[id]) {
                fails_with(r, kind_error) && after == before
            } else {
                &&& r == Ok::<Value, String>(Value::Null)
                &&& after.controls@ == before.controls@.insert(id, set(before.controls@[id], flag_arg(args)))
                &&& after == before.with_controls(after.controls)
            }
        },
    }
}

/// `setenabled(control, flag)`.
pub fn setenabled(ui: &mut Ui, args: Vec<Value>) -> (r: Result<Value, String>)
    ensures
        control_flag_effect(*old(ui), *final(ui), args@, "setenabled"@, "2 arguments (control_id, enabled)"@,
            r, |c: ControlSettings| true, Seq::empty(),
            |c: ControlSettings, b: bool| ControlSettings { enabled: b, ..c }),
{
    if args.len() != 2 {
        return Err(arity_error("setenabled", "2 arguments (control_id, enabled)", args.len()));
    }
    let id = match &args[0] {
        Value::String(id) => id,
        _ => return Err(expects_error("setenabled", "a control identifier")),
    };
    let b = match &args[1] {
        Value::Bool(b) => *b,
        _ => return Err(expects_error("setenabled", "a boolean")),
    };
    match ui.controls.find(id) {
        Some(i) => {
            let c = ui.controls.value_mut(i);
            c.enabled = b;
            Ok(Value::Null)
        },
        None => Err(text("Control not found")),
    }
}

/// `getenabled(control)`.
pub fn getenabled(ui: &Ui, args: Vec<Value>) -> (r: Result<Value, String>)
    ensures
        control_query_result(*ui, args@, "getenabled"@, "1 argument (control_id)"@, r,
            |c: ControlSettings| true, Seq::empty(), |c: ControlSettings| Value::Bool(c.enabled)),
{
    if args.len() != 1 {
        return Err(arity_error("getenabled", "1 argument (control_id)", args.len()));
    }
    let id = match &args[0] {
        Value::String(id) => id,
        _ => return Err(expects_error("getenabled", "a control identifier")),
    };
    match ui.controls.get(id) {
        Some(c) => Ok(Value::Bool(c.enabled)),
        None => Err(text("Control not found")),
    }
}

/// `setvisibility(control, flag)`.
pub fn setvisibility(ui: &mut Ui, args: Vec<Value>) -> (r: Result<Value, String>)
    ensures
        control_flag_effect(*old(ui), *final(ui), args@, "setvisibility"@, "2 arguments (control_id, visible)"@,
            r, |c: ControlSettings| true, Seq::empty(),
            |c: ControlSettings, b: bool| ControlSettings { visible: b, ..c }),
{
    if args.len() != 2 {
        return Err(arity_error("setvisibility", "2 arguments (control_id, visible)", args.len()));
    }
    let id = match &args[0] {
        Value::String(id) => id,
        _ => return Err(expects_error("setvisibility", "a control identifier")),
    };
    let b = match &args[1] {
        Value::Bool(b) => *b,
        _ => return Err(expects_error("setvisibility", "a boolean")),
    };
    match ui.controls.find(id) {
        Some(i) => {
            let c = ui.controls.value_mut(i);
            c.visible = b;
            Ok(Value::Null)
        },
        None => Err(text("Control not found")),
    }
}

/// `getvisibility(control)`.
pub fn getvisibility(ui: &Ui, args: Vec<Value>) -> (r: Result<Value, String>)
    ensures
        control_query_result(*ui, args@, "getvisibility"@, "1 argument (control_id)"@, r,
            |c: ControlSettings| true, Seq::empty(), |c: ControlSettings| Value::Bool(c.visible)),
{
    if args.len() != 1 {
        return Err(arity_error("getvisibility", "1 argument (control_id)", args.len()));
    }
    let id = match &args[0] {
        Value::String(id) => id,
        _ => return Err(expects_error("getvisibility", "a control identifier")),
    };
    match ui.controls.get(id) {
        Some(c) => Ok(Value::Bool(c.visible)),
        None => Err(text("Control not found")),
    }
}

/// `set_multiline(textbox, flag)`.
pub fn set_multiline(ui: &mut Ui, args: Vec<Value>) -> (r: Result<Value, String>)
    ensures
        control_flag_effect(*old(ui), *final(ui), args@, "set_multiline"@,
            "2 arguments (control_id, multiline)"@, r,
            |c: ControlSettings| c.control_type@ == "textbox"@,
            "set_multiline() can only be used with textboxes"@,
            |c: ControlSettings, b: bool| ControlSettings { multiline: b, ..c }),
{
    if args.len() != 2 {
        return Err(arity_error("set_multiline", "2 arguments (control_id, multiline)", args.len()));
    }
    let id = match &args[0] {
        Value::String(id) => id,
        _ => return Err(expects_error("set_multiline", "a control identifier")),
    };
    let b = match &args[1] {
        Value::Bool(b) => *b,
        _ => return Err(expects_error("set_multiline", "a boolean")),
    };
    match ui.controls.find(id) {
        Some(i) => {
            if !same_text(&ui.controls.value_at(i).control_type, "textbox") {
                return Err(text("set_multiline() can only be used with textboxes"));
            }
            let c = ui.controls.value_mut(i);
            c.multiline = b;
            Ok(Value::Null)
        },
        None => Err(text("Control not found")),
    }
}

/// `get_multiline(textbox)`.
pub fn get_multiline(ui: &Ui, args: Vec<Value>) -> (r: Result<Value, String>)
    ensures
        control_query_result(*ui, args@, "get_multiline"@, "1 argument (control_id)"@, r,
            |c: ControlSettings| c.control_type@ == "textbox"@,
            "get_multiline() can only be used with textboxes"@,
            |c: ControlSettings| Value::Bool(c.multiline)),
{
    if args.len() != 1 {
        return Err(arity_error("get_multiline", "1 argument (control_id)", args.len()));
    }
    let id = match &args[0] {
        Value::String(id) => id,
        _ => return Err(expects_error("get_multiline", "a control identifier")),
    };
    match ui.controls.get(id) {
        Some(c) => {
            if same_text(&c.control_type, "textbox") {
                Ok(Value::Bool(c.multiline))
            } else {
                Err(text("get_multiline() can only be used with textboxes"))
            }
        },
        None => Err(text("Control not found")),
    }
}

/// The dock style that a (lower-case) name stands for.
pub open spec fn dock_style_of(s: Seq<char>) -> Option<DockStyle> {
    if s == "none"@ {
        Some(DockStyle::NoDock)
    } else if s == "top"@ {
        Some(DockStyle::Top)
    } else if s == "bottom"@ {
        Some(DockStyle::Bottom)
    } else if s == "left"@ {
        Some(DockStyle::Left)
    } else if s == "right"@ {
        Some(DockStyle::Right)
    } else if s == "fill"@ {
        Some(DockStyle::Fill)
    } else {
        None
    }
}

/// The name of a dock style.
pub open spec fn dock_text(d: DockStyle) -> Seq<char> {
    match d {
        DockStyle::NoDock => "none"@,
        DockStyle::Top => "top"@,
        DockStyle::Bottom => "bottom"@,
        DockStyle::Left => "left"@,
        DockStyle::Right => "right"@,
        DockStyle::Fill => "fill"@,
    }
}

/// The dock style that a lower-case name stands for, if any.
pub fn parse_dock_style(s: &String) -> (r: Option<DockStyle>)
    ensures
        r == dock_style_of(s@),
{
    if same_text(s, "none") {
        Some(DockStyle::NoDock)
    } else if same_text(s, "top") {
        Some(DockStyle::Top)
    } else if same_text(s, "bottom") {
        Some(DockStyle::Bottom)
    } else if same_text(s, "left") {
        Some(DockStyle::Left)
    } else if same_text(s, "right") {
        Some(DockStyle::Right)
    } else if same_text(s, "fill") {
        Some(DockStyle::Fill)
    } else {
        None
    }
}

/// The name of a dock style.
pub fn dock_name(d: DockStyle) -> (s: String)
    ensures
        s@ == dock_text(d),
{
    match d {
        DockStyle::NoDock => text("none"),
        DockStyle::Top => text("top"),
        DockStyle::Bottom => text("bottom"),
        DockStyle::Left => text("left"),
        DockStyle::Right => text("right"),
        DockStyle::Fill => text("fill"),
    }
}

/// `setdock(control, style)`: the style's name is read without regard to case.
pub fn setdock(ui: &mut Ui, args: Vec<Value>) -> (r: Result<Value, String>)
    ensures
        args.len() != 2 ==> fails_with(r, arity_message("setdock"@, "2 arguments (control_id, dock_style)"@, args.len() as nat))
            && *final(ui) == *old(ui),
        args.len() == 2 ==> match (args@[0], args@[1]) {
            (Value::String(id), Value::String(s)) => match dock_style_of(lowercase_text(s@)) {
                None => fails_with(r, "Invalid dock style: use 'none', 'top', 'bottom', 'left', 'right', 'fill'"@)
                    && *final(ui) == *old(ui),
                Some(d) => if old(ui).controls@.contains_key(id@) {
                    &&& r == Ok::<Value, String>(Value::Null)
                    &&& final(ui).controls@ == old(ui).controls@.insert(
                        id@,
                        ControlSettings { dock: d, ..old(ui).controls@[id@] },
                    )
                    &&& *final(ui) == old(ui).with_controls(final(ui).controls)
                } else {
                    fails_with(r, "Control not found"@) && *final(ui) == *old(ui)
                },
            },
            (Value::String(_), _) => fails_with(r, expects("setdock"@, "a string for dock style"@))
                && *final(ui) == *old(ui),
            _ => fails_with(r, expects("setdock"@, "a control identifier"@)) && *final(ui) == *old(ui),
        },
{
    if args.len() != 2 {
        return Err(arity_error("setdock", "2 arguments (control_id, dock_style)", args.len()));
    }
    let id = match &args[0] {
        Value::String(id) => id,
        _ => return Err(expects_error("setdock", "a control identifier")),
    };
    let style = match &args[1] {
        Value::String(s) => lowercase(s),
        _ => return Err(expects_error("setdock", "a string for dock style")),
    };
    let d = match parse_dock_style(&style) {
        Some(d) => d,
        None => return Err(text("Invalid dock style: use 'none', 'top', 'bottom', 'left', 'right', 'fill'")),
    };
    match ui.controls.find(id) {
        Some(i) => {
            let c = ui.controls.value_mut(i);
            c.dock = d;
            Ok(Value::Null)
        },
        None => Err(text("Control not found")),
    }
}

/// `getdock(control)`: the name of its dock style.
pub fn getdock(ui: &Ui, args: Vec<Value>) -> (r: Result<Value, String>)
    ensures
        match control_query_error(args@, "getdock"@, "1 argument (control_id)"@) {
            Some(m) => fails_with(r, m),
            None => {
                let id = control_arg(args@);
                if ui.controls@.contains_key(id) {
                    r matches Ok(Value::String(s)) && s@ == dock_text(ui.controls@[id].dock)
                } else {
                    fails_with(r, "Control not found"@)
                }
            },
        },
{
    if args.len() != 1 {
        return Err(arity_error("getdock", "1 argument (control_id)", args.len()));
    }
    let id = match &args[0] {
        Value::String(id) => id,
        _ => return Err(expects_error("getdock", "a control identifier")),
    };
    match ui.controls.get(id) {
        Some(c) => Ok(Value::String(dock_name(c.dock))),
        None => Err(text("Control not found")),
    }
}

/// The cursors that a button accepts.
pub open spec fn is_cursor_name(s: Seq<char>) -> bool {
    s == "hand"@ || s == "pointer"@ || s == "default"@ || s == "crosshair"@ || s == "text"@ || s == "move"@
        || s == "grab"@ || s == "grabbing"@
}

/// Whether a (lower-case) name is that of a cursor.
pub fn is_cursor(s: &String) -> (r: bool)
    ensures
        r == is_cursor_name(s@),
{
    same_text(s, "hand") || same_text(s, "pointer") || same_text(s, "default") || same_text(s, "crosshair")
        || same_text(s, "text") || same_text(s, "move") || same_text(s, "grab") || same_text(s, "grabbing")
}

/// `set_cursor(button, cursor)`: the name is read without regard to case.
pub fn set_cursor(ui: &mut Ui, args: Vec<Value>) -> (r: Result<Value, String>)
    ensures
        args.len() != 2 ==> fails_with(r, arity_message("set_cursor"@, "2 arguments (control_id, cursor)"@, args.len() as nat))
            && *final(ui) == *old(ui),
        args.len() == 2 ==> match (args@[0], args@[1]) {
            (Value::String(id), Value::String(s)) => if !is_cursor_name(lowercase_text(s@)) {
                fails_with(r, "Invalid cursor: use one of [\"hand\", \"pointer\", \"default\", \"crosshair\", \"text\", \"move\", \"grab\", \"grabbing\"]"@)
                    && *final(ui) == *old(ui)
            } else if !old(ui).controls@.contains_key(id@) {
                fails_with(r, "Control not found"@) && *final(ui) == *old(ui)
            } else if old(ui).controls@[id@].control_type@ != "button"@ {
                fails_with(r, "set_cursor() can only be used with buttons"@) && *final(ui) == *old(ui)
            } else {
                &&& r == Ok::<Value, String>(Value::Null)
                &&& final(ui).controls@.dom() == old(ui).controls@.dom()
                &&& final(ui).controls@[id@].cursor@ == lowercase_text(s@)
                &&& final(ui).controls@ == old(ui).controls@.insert(
                    id@,
                    ControlSettings { cursor: final(ui).controls@[id@].cursor, ..old(ui).controls@[id@] },
                )
                &&& *final(ui) == old(ui).with_controls(final(ui).controls)
            },
            (Value::String(_), _) => fails_with(r, expects("set_cursor"@, "a string for cursor"@))
                && *final(ui) == *old(ui),
            _ => fails_with(r, expects("set_cursor"@, "a control identifier"@)) && *final(ui) == *old(ui),
        },
{
    if args.len() != 2 {
        return Err(arity_error("set_cursor", "2 arguments (control_id, cursor)", args.len()));
    }
    let id = match &args[0] {
        Value::String(id) => id,
        _ => return Err(expects_error("set_cursor", "a control identifier")),
    };
    let cursor = match &args[1] {
        Value::String(s) => lowercase(s),
        _ => return Err(expects_error("set_cursor", "a string for cursor")),
    };
    if !is_cursor(&cursor) {
        return Err(
            text(
                "Invalid cursor: use one of [\"hand\", \"pointer\", \"default\", \"crosshair\", \"text\", \"move\", \"grab\", \"grabbing\"]",
            ),
        );
    }
    match ui.controls.find(id) {
        Some(i) => {
            if !same_text(&ui.controls.value_at(i).control_type, "button") {
                return Err(text("set_cursor() can only be used with buttons"));
            }
            let c = ui.controls.value_mut(i);
            c.cursor = cursor;
            Ok(Value::Null)
        },
        None => Err(text("Control not found")),
    }
}

/// `get_cursor(button)`.
pub fn get_cursor(ui: &Ui, args: Vec<Value>) -> (r: Result<Value, String>)
    ensures
        match control_query_error(args@, "get_cursor"@, "1 argument (control_id)"@) {
            Some(m) => fails_with(r, m),
            None => {
                let id = control_arg(args@);
                if !ui.controls@.contains_key(id) {
                    fails_with(r, "Control not found"@)
                } else if ui.controls@[id].control_type@ != "button"@ {
                    fails_with(r, "get_cursor() can only be used with buttons"@)
                } else {
                    r matches Ok(Value::String(s)) && s@ == ui.controls@[id].cursor@
                }
            },
        },
{
    if args.len() != 1 {
        return Err(arity_error("get_cursor", "1 argument (control_id)", args.len()));
    }
    let id = match &args[0] {
        Value::String(id) => id,
        _ => return Err(expects_error("get_cursor", "a control identifier")),
    };
    match ui.controls.get(id) {
        Some(c) => {
            if same_text(&c.control_type, "button") {
                Ok(Value::String(c.cursor.clone()))
            } else {
                Err(text("get_cursor() can only be used with buttons"))
            }
        },
        None => Err(text("Control not found")),
    }
}

/// `setclickhandler(button, callback)`.
pub fn setclickhandler(ui: &mut Ui, args: Vec<Value>) -> (r: Result<Value, String>)
    ensures
        args.len() != 2 ==> fails_with(r, arity_message("setclickhandler"@, "2 arguments (control_id, callback)"@, args.len() as nat))
            && *final(ui) == *old(ui),
        args.len() == 2 ==> match args@[0] {
            Value::String(id) => if !old(ui).controls@.contains_key(id@) {
                fails_with(r, "Control not found"@) && *final(ui) == *old(ui)
            } else if old(ui).controls@[id@].control_type@ != "button"@
                && old(ui).controls@[id@].control_type@ != "imagebutton"@ {
                fails_with(r, "setclickhandler() can only be used with buttons or imagebuttons"@)
                    && *final(ui) == *old(ui)
            } else {
                &&& r == Ok::<Value, String>(Value::Null)
                &&& final(ui).controls@ == old(ui).controls@.insert(
                    id@,
                    ControlSettings { callback: Some(args@[1]), ..old(ui).controls@[id@] },
                )
                &&& *final(ui) == old(ui).with_controls(final(ui).controls)
            },
            _ => fails_with(r, expects("setclickhandler"@, "a control identifier"@)) && *final(ui) == *old(ui),
        },
{
    if args.len() != 2 {
        return Err(arity_error("setclickhandler", "2 arguments (control_id, callback)", args.len()));
    }
    let (a, callback) = take_two(args);
    let id = match a {
        Value::String(id) => id,
        _ => return Err(expects_error("setclickhandler", "a control identifier")),
    };
    match ui.controls.find(&id) {
        Some(i) => {
            let kind = &ui.controls.value_at(i).control_type;
            if !same_text(kind, "button") && !same_text(kind, "imagebutton") {
                return Err(text("setclickhandler() can only be used with buttons or imagebuttons"));
            }
            let c = ui.controls.value_mut(i);
            c.callback = Some(callback);
            Ok(Value::Null)
        },
        None => Err(text("Control not found")),
    }
}

/// `getchecked(checkbox or radiobox)`.
pub fn getchecked(ui: &Ui, args: Vec<Value>) -> (r: Result<Value, String>)
    ensures
        control_query_result(*ui, args@, "getchecked"@, "1 argument (control_id)"@, r,
            |c: ControlSettings| c.control_type@ == "checkbox"@ || c.control_type@ == "radiobox"@,
            "getchecked() can only be used with checkboxes and radioboxes"@,
            |c: ControlSettings| Value::Bool(c.checked)),
{
    if args.len() != 1 {
        return Err(arity_error("getchecked", "1 argument (control_id)", args.len()));
    }
    let id = match &args[0] {
        Value::String(id) => id,
        _ => return Err(expects_error("getchecked", "a control identifier")),
    };
    match ui.controls.get(id) {
        Some(c) => {
            if same_text(&c.control_type, "checkbox") || same_text(&c.control_type, "radiobox") {
                Ok(Value::Bool(c.checked))
            } else {
                Err(text("getchecked() can only be used with checkboxes and radioboxes"))
            }
        },
        None => Err(text("Control not found")),
    }
}

/// `set_use_as_default_panel(pages, flag)`.
pub fn set_use_as_default_panel(ui: &mut Ui, args: Vec<Value>) -> (r: Result<Value, String>)
    ensures
        args.len() != 2 ==> fails_with(r, arity_message("set_use_as_default_panel"@, "2 arguments"@, args.len() as nat))
            && *final(ui) == *old(ui),
        args.len() == 2 ==> match (args@[0], args@[1]) {
            (Value::String(id), Value::Bool(b)) => if !old(ui).controls@.contains_key(id@) {
                fails_with(r, "Pages control not found"@) && *final(ui) == *old(ui)
            } else if old(ui).controls@[id@].control_type@ != "pages"@ {
                fails_with(r, "Control must be a Pages type"@) && *final(ui) == *old(ui)
            } else {
                &&& r == Ok::<Value, String>(Value::Null)
                &&& final(ui).controls@ == old(ui).controls@.insert(
                    id@,
                    ControlSettings { use_as_default_panel: b, ..old(ui).controls@[id@] },
                )
                &&& *final(ui) == old(ui).with_controls(final(ui).controls)
            },
            (Value::String(_), _) => fails_with(r, expects("set_use_as_default_panel"@, "a boolean"@))
                && *final(ui) == *old(ui),
            _ => fails_with(r, expects("set_use_as_default_panel"@, "a Pages identifier"@)) && *final(ui) == *old(ui),
        },
{
    if args.len() != 2 {
        return Err(arity_error("set_use_as_default_panel", "2 arguments", args.len()));
    }
    let id = match &args[0] {
        Value::String(id) => id,
        _ => return Err(expects_error("set_use_as_default_panel", "a Pages identifier")),
    };
    let b = match &args[1] {
        Value::Bool(b) => *b,
        _ => return Err(expects_error("set_use_as_default_panel", "a boolean")),
    };
    match ui.controls.find(id) {
        Some(i) => {
            if !same_text(&ui.controls.value_at(i).control_type, "pages") {
                return Err(text("Control must be a Pages type"));
            }
            let c = ui.controls.value_mut(i);
            c.use_as_default_panel = b;
            Ok(Value::Null)
        },
        None => Err(text("Pages control not found")),
    }
}

/// `setseparatororientation(separator, orientation)`.
pub fn setseparatororientation(ui: &mut Ui, args: Vec<Value>) -> (r: Result<Value, String>)
    ensures
        args.len() != 2 ==> fails_with(r, "setseparatororientation() expects 2 arguments (separator_id, orientation)"@)
            && *final(ui) == *old(ui),
        args.len() == 2 ==> match (args@[0], args@[1]) {
            (Value::String(id), Value::String(o)) => if !old(ui).controls@.contains_key(id@) {
                fails_with(r, "Separator not found"@) && *final(ui) == *old(ui)
            } else if old(ui).controls@[id@].control_type@ != "separator"@ {
                fails_with(r, "Control is not a separator"@) && *final(ui) == *old(ui)
            } else {
                &&& r == Ok::<Value, String>(Value::Null)
                &&& final(ui).controls@ == old(ui).controls@.insert(
                    id@,
                    ControlSettings { orientation: o, ..old(ui).controls@[id@] },
                )
                &&& *final(ui) == old(ui).with_controls(final(ui).controls)
            },
            (Value::String(_), _) => fails_with(r, "Second argument must be a string (orientation)"@)
                && *final(ui) == *old(ui),
            _ => fails_with(r, "First argument must be a separator identifier"@) && *final(ui) == *old(ui),
        },
{
    if args.len() != 2 {
        return Err(text("setseparatororientation() expects 2 arguments (separator_id, orientation)"));
    }
    let (a, b) = take_two(args);
    let id = match a {
        Value::String(id) => id,
        _ => return Err(text("First argument must be a separator identifier")),
    };
    let o = match b {
        Value::String(o) => o,
        _ => return Err(text("Second argument must be a string (orientation)")),
    };
    match ui.controls.find(&id) {
        Some(i) => {
            if !same_text(&ui.controls.value_at(i).control_type, "separator") {
                return Err(text("Control is not a separator"));
            }
            let c = ui.controls.value_mut(i);
            c.orientation = o;
            Ok(Value::Null)
        },
        None => Err(text("Separator not found")),
    }
}

/// `getseparatororientation(separator)`.
pub fn getseparatororientation(ui: &Ui, args: Vec<Value>) -> (r: Result<Value, String>)
    ensures
        args.len() != 1 ==> fails_with(r, "getseparatororientation() expects 1 argument (separator_id)"@),
        args.len() == 1 ==> match args@[0] {
            Value::String(id) => if !ui.controls@.contains_key(id@) {
                fails_with(r, "Separator not found"@)
            } else if ui.controls@[id@].control_type@ != "separator"@ {
                fails_with(r, "Control is not a separator"@)
            } else {
                r matches Ok(Value::String(s)) && s@ == ui.controls@[id@].orientation@
            },
            _ => fails_with(r, "Argument must be a separator identifier"@),
        },
{
    if args.len() != 1 {
        return Err(text("getseparatororientation() expects 1 argument (separator_id)"));
    }
    let id = match &args[0] {
        Value::String(id) => id,
        _ => return Err(text("Argument must be a separator identifier")),
    };
    match ui.controls.get(id) {
        Some(c) => {
            if same_text(&c.control_type, "separator") {
                Ok(Value::String(c.orientation.clone()))
            } else {
                Err(text("Control is not a separator"))
            }
        },
        None => Err(text("Separator not found")),
    }
}

/// `"r,g,b"` in decimal.
pub open spec fn color_text(c: Color) -> Seq<char> {
    decimal(c.r as nat) + ","@ + decimal(c.g as nat) + ","@ + decimal(c.b as nat)
}

/// The red, green and blue channels of a colour, in decimal, separated by commas.
pub fn color_string(c: Color) -> (s: String)
    ensures
        s@ == color_text(c),
{
    let mut s = decimal_string(c.r as usize);
    s.append(",");
    let g = decimal_string(c.g as usize);
    s.append(g.as_str());
    s.append(",");
    let b = decimal_string(c.b as usize);
    s.append(b.as_str());
    s
}

/// `get_forecolor(control)`: `"r,g,b"`.
pub fn get_forecolor(ui: &Ui, args: Vec<Value>) -> (r: Result<Value, String>)
    ensures
        match control_query_error(args@, "get_forecolor"@, "1 argument"@) {
            Some(m) => fails_with(r, m),
            None => {
                let id = control_arg(args@);
                if ui.controls@.contains_key(id) {
                    r matches Ok(Value::String(s)) && s@ == color_text(ui.controls@[id].forecolor)
                } else {
                    fails_with(r, "Control not found"@)
                }
            },
        },
{
    if args.len() != 1 {
        return Err(arity_error("get_forecolor", "1 argument", args.len()));
    }
    let id = match &args[0] {
        Value::String(id) => id,
        _ => return Err(expects_error("get_forecolor", "a control identifier")),
    };
    match ui.controls.get(id) {
        Some(c) => Ok(Value::String(color_string(c.forecolor))),
        None => Err(text("Control not found")),
    }
}

/// `get_backcolor(control)`: `"r,g,b"`.
pub fn get_backcolor(ui: &Ui, args: Vec<Value>) -> (r: Result<Value, String>)
    ensures
        match control_query_error(args@, "get_backcolor"@, "1 argument"@) {
            Some(m) => fails_with(r, m),
            None => {
                let id = control_arg(args@);
                if ui.controls@.contains_key(id) {
                    r matches Ok(Value::String(s)) && s@ == color_text(ui.controls@[id].backcolor)
                } else {
                    fails_with(r, "Control not found"@)
                }
            },
        },
{
    if args.len() != 1 {
        return Err(arity_error("get_backcolor", "1 argument", args.len()));
    }
    let id = match &args[0] {
        Value::String(id) => id,
        _ => return Err(expects_error("get_backcolor", "a control identifier")),
    };
    match ui.controls.get(id) {
        Some(c) => Ok(Value::String(color_string(c.backcolor))),
        None => Err(text("Control not found")),
    }
}

/// A control is in the radio group `group` of the form `form`.
pub open spec fn in_radio_group(c: ControlSettings, form: Seq<char>, group: Seq<char>) -> bool {
    c.form_id@ == form && (c.group matches Some(g) && g@ == group)
}

/// What selecting the radio box `id` of a group does to the control `key`:
/// within the group only `id` stays checked; outside it nothing changes.
pub open spec fn radio_update(
    key: Seq<char>,
    c: ControlSettings,
    form: Seq<char>,
    group: Seq<char>,
    id: Seq<char>,
) -> ControlSettings {
    if in_radio_group(c, form, group) {
        ControlSettings { checked: key == id, ..c }
    } else {
        c
    }
}

/// The effect of selecting the radio box `id` of `group` on the form `form`.
pub open spec fn radio_selected(before: Ui, after: Ui, id: String, form: Seq<char>, group: Seq<char>) -> bool {
    &&& after.controls@.dom() == before.controls@.dom()
    &&& forall|k: Seq<char>| #[trigger] before.controls@.contains_key(k) ==> after.controls@[k]
        == radio_update(k, before.controls@[k], form, group, id@)
    &&& after.radio_selections@ == before.radio_selections@.insert(form, after.radio_selections@[form])
    &&& after.radio_selections@[form]@ == (if before.radio_selections@.contains_key(form) {
        before.radio_selections@[form]@
    } else {
        Map::empty()
    }).insert(group, id)
    &&& after == (Ui { controls: after.controls, radio_selections: after.radio_selections, ..before })
}

/// `setchecked(control, flag)`: a checkbox takes the flag; a radio box that
/// is checked becomes the one checked box of its group.
pub fn setchecked(ui: &mut Ui, args: Vec<Value>) -> (r: Result<Value, String>)
    ensures
        match control_flag_error(args@, "setchecked"@, "2 arguments"@) {
            Some(m) => fails_with(r, m) && *final(ui) == *old(ui),
            None => {
                let id = control_arg(args@);
                let b = flag_arg(args@);
                if !old(ui).controls@.contains_key(id) {
                    fails_with(r, "Control not found"@) && *final(ui) == *old(ui)
                } else {
                    let c = old(ui).controls@[id];
                    if c.control_type@ == "checkbox"@ {
                        &&& r == Ok::<Value, String>(Value::Null)
                        &&& final(ui).controls@ == old(ui).controls@.insert(id, ControlSettings { checked: b, ..c })
                        &&& *final(ui) == old(ui).with_controls(final(ui).controls)
                    } else if c.control_type@ == "radiobox"@ {
                        &&& r == Ok::<Value, String>(Value::Null)
                        &&& if b && c.group is Some {
                            args@[0] matches Value::String(ids) && radio_selected(
                                *old(ui),
                                *final(ui),
                                ids,
                                c.form_id@,
                                c.group->0@,
                            )
                        } else {
                            *final(ui) == *old(ui)
                        }
                    } else {
                        fails_with(r, "setchecked() only works with checkboxes and radioboxes"@)
                            && *final(ui) == *old(ui)
                    }
                }
            },
        },
{
    if args.len() != 2 {
        return Err(arity_error("setchecked", "2 arguments", args.len()));
    }
    let id = match &args[0] {
        Value::String(id) => id,
        _ => return Err(expects_error("setchecked", "a control identifier")),
    };
    let b = match &args[1] {
        Value::Bool(b) => *b,
        _ => return Err(expects_error("setchecked", "a boolean")),
    };
    let i = match ui.controls.find(id) {
        Some(i) => i,
        None => return Err(text("Control not found")),
    };
    let c = ui.controls.value_at(i);
    if same_text(&c.control_type, "checkbox") {
        let c = ui.controls.value_mut(i);
        c.checked = b;
        return Ok(Value::Null);
    }
    if !same_text(&c.control_type, "radiobox") {
        return Err(text("setchecked() only works with checkboxes and radioboxes"));
    }
    if !b {
        return Ok(Value::Null);
    }
    let form = c.form_id.clone();
    let group = match &c.group {
        Some(g) => g.clone(),
        None => return Ok(Value::Null),
    };
    match ui.radio_selections.find(&form) {
        Some(s) => {
            let chosen = ui.radio_selections.value_mut(s);
            chosen.insert(group.clone(), id.clone());
        },
        None => {
            let mut chosen = Registry::new();
            chosen.insert(group.clone(), id.clone());
            ui.radio_selections.insert(form.clone(), chosen);
        },
    }
    let ghost mid = *ui;
    let n = ui.controls.entry_count();
    let mut j: usize = 0;
    while j < n
        invariant
            n == mid.controls.count(),
            ui.controls.count() == n,
            j <= n,
            *ui == mid.with_controls(ui.controls),
            forall|m: int| 0 <= m < n ==> #[trigger] ui.controls.key_at(m) == mid.controls.key_at(m),
            forall|m: int|
                0 <= m < j ==> #[trigger] ui.controls.record_at(m) == radio_update(
                    mid.controls.key_at(m),
                    mid.controls.record_at(m),
                    form@,
                    group@,
                    id@,
                ),
            forall|m: int| j <= m < n ==> #[trigger] ui.controls.record_at(m) == mid.controls.record_at(m),
        decreases n - j,
    {
        let member = {
            let c = ui.controls.record(j);
            c.form_id == form && match &c.group {
                Some(g) => *g == group,
                None => false,
            }
        };
        if member {
            let same = *ui.controls.entry_key(j) == *id;
            let c = ui.controls.record_mut(j);
            c.checked = same;
        }
        j = j + 1;
    }
    proof {
        Registry::lemma_pointwise(
            &mid.controls,
            &ui.controls,
            |k: Seq<char>, c: ControlSettings| radio_update(k, c, form@, group@, id@),
        );
    }
    Ok(Value::Null)
}

/// `set_forecolor(control, colour text)`: an unreadable colour is black.
pub fn set_forecolor(ui: &mut Ui, args: Vec<Value>) -> (r: Result<Value, String>)
    ensures
        args.len() != 2 ==> fails_with(r, arity_message("set_forecolor"@, "2 arguments"@, args.len() as nat))
            && *final(ui) == *old(ui),
        args.len() == 2 ==> match (args@[0], args@[1]) {
            (Value::String(id), Value::String(s)) => if old(ui).controls@.contains_key(id@) {
                &&& r == Ok::<Value, String>(Value::Null)
                &&& final(ui).controls@ == old(ui).controls@.insert(
                    id@,
                    ControlSettings {
                        forecolor: match crate::color::parsed_color(s@) {
                            Some(c) => c,
                            None => black(),
                        },
                        ..old(ui).controls@[id@]
                    },
                )
                &&& *final(ui) == old(ui).with_controls(final(ui).controls)
            } else {
                fails_with(r, "Control not found"@) && *final(ui) == *old(ui)
            },
            (Value::String(_), _) => fails_with(r, expects("set_forecolor"@, "a color string (e.g., '255,0,0')"@))
                && *final(ui) == *old(ui),
            _ => fails_with(r, expects("set_forecolor"@, "a control identifier"@)) && *final(ui) == *old(ui),
        },
{
    if args.len() != 2 {
        return Err(arity_error("set_forecolor", "2 arguments", args.len()));
    }
    let id = match &args[0] {
        Value::String(id) => id,
        _ => return Err(expects_error("set_forecolor", "a control identifier")),
    };
    let color = match &args[1] {
        Value::String(s) => match crate::color::parse_color(s) {
            Some(c) => c,
            None => Color { r: 0, g: 0, b: 0, a: 255 },
        },
        _ => return Err(expects_error("set_forecolor", "a color string (e.g., '255,0,0')")),
    };
    match ui.controls.find(id) {
        Some(i) => {
            let c = ui.controls.value_mut(i);
            c.forecolor = color;
            Ok(Value::Null)
        },
        None => Err(text("Control not found")),
    }
}

/// `set_backcolor(form or control, colour text)`: an unreadable colour is
/// transparent; a form is looked for before a control.
pub fn set_backcolor(ui: &mut Ui, args: Vec<Value>) -> (r: Result<Value, String>)
    ensures
        args.len() != 2 ==> fails_with(r, arity_message("set_backcolor"@, "2 arguments"@, args.len() as nat))
            && *final(ui) == *old(ui),
        args.len() == 2 ==> match (args@[0], args@[1]) {
            (Value::String(id), Value::String(s)) | (Value::FormObject(id), Value::String(s)) => {
                let c = match crate::color::parsed_color(s@) {
                    Some(c) => c,
                    None => transparent(),
                };
                if old(ui).forms@.contains_key(id@) {
                    &&& r == Ok::<Value, String>(Value::Null)
                    &&& final(ui).forms@ == old(ui).forms@.insert(id@, FormSettings { bg_color: c, ..old(ui).forms@[id@] })
                    &&& *final(ui) == old(ui).with_forms(final(ui).forms)
                } else if old(ui).controls@.contains_key(id@) {
                    &&& r == Ok::<Value, String>(Value::Null)
                    &&& final(ui).controls@ == old(ui).controls@.insert(
                        id@,
                        ControlSettings { backcolor: c, ..old(ui).controls@[id@] },
                    )
                    &&& *final(ui) == old(ui).with_controls(final(ui).controls)
                } else {
                    fails_with(r, "Form or control not found"@) && *final(ui) == *old(ui)
                }
            },
            (Value::String(_), _) | (Value::FormObject(_), _) => fails_with(
                r,
                expects("set_backcolor"@, "a color string (e.g., '255,0,0')"@),
            ) && *final(ui) == *old(ui),
            _ => fails_with(r, expects("set_backcolor"@, "a control or form identifier"@)) && *final(ui) == *old(ui),
        },
{
    if args.len() != 2 {
        return Err(arity_error("set_backcolor", "2 arguments", args.len()));
    }
    let id = match &args[0] {
        Value::String(id) => id,
        Value::FormObject(id) => id,
        _ => return Err(expects_error("set_backcolor", "a control or form identifier")),
    };
    let color = match &args[1] {
        Value::String(s) => match crate::color::parse_color(s) {
            Some(c) => c,
            None => Color { r: 0, g: 0, b: 0, a: 0 },
        },
        _ => return Err(expects_error("set_backcolor", "a color string (e.g., '255,0,0')")),
    };
    match ui.forms.find(id) {
        Some(i) => {
            let f = ui.forms.value_mut(i);
            f.bg_color = color;
            return Ok(Value::Null);
        },
        None => {},
    }
    match ui.controls.find(id) {
        Some(i) => {
            let c = ui.controls.value_mut(i);
            c.backcolor = color;
            Ok(Value::Null)
        },
        None => Err(text("Form or control not found")),
    }
}

} // verus!
