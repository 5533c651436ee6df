use easybite::create::{
    createform, createpicturebox, createprogressbar, createscrollbar, createtimer,
};
use easybite::dictionary::get;
use easybite::gauges::{
    getbarcolor, getbarstyle, getmax, getmin, getscrollmax, getscrollmin, getscrollvalue,
    getvalue, setbarcolor, setbarstyle, setimage, setmax, setmin, setscrollmax, setscrollmin,
    setscrollvalue, setsizemode, setsmallchange, getsmallchange, setvalue,
};
use easybite::layout::{get_x, get_y, set_below, set_left, set_margin, set_padding, set_position, set_x, set_y};
use easybite::registry::Registry;
use easybite::trees::{
    treeview_get_node, treeview_get_selected, treeview_set_node_checkbox,
    treeview_set_node_icon, treeview_set_selected,
};
use easybite::ui::{
    BarStyle, DrawyState, GridLayoutState, LayoutConstraint, NumberBoxState, Page, PagesState,
    SizeMode, TreeNode, TreeViewState, Ui, Color, ALPHA_OPAQUE,
};
use easybite::value::{Dict, Value};
use easybite::widgets::{
    addgridlayoutcolumn, addgridlayoutrow, addpage, drawy_begin_fill, drawy_end_fill,
    drawy_pendown, drawy_penup, get_dialog_multiselect, get_dialog_result, get_dialog_title,
    getgridlayoutcolumns, getgridlayoutrows, getpageindex, gettimerenabled, gettimerinterval,
    hidepage, removepage, set_dialog_multiselect, set_dialog_title, setgridlayoutrows,
    settimerenabled, settimerinterval, settransition, showpage, starttimer, stoptimer,
};

/// How a number reads: its `f64` `Display` text and its `Debug` text.
fn decimals(b: u64) -> (String, String) {
    let x = f64::from_bits(b);
    (x.to_string(), format!("{:?}", x))
}

fn dup(v: &Value) -> Value {
    match v {
        Value::Number(b) => Value::Number(*b),
        Value::String(t) => Value::String(t.clone()),
        Value::Bool(b) => Value::Bool(*b),
        Value::Null => Value::Null,
        Value::Array(a) => Value::Array(a.iter().map(dup).collect()),
        Value::Dictionary(d) => {
            let mut e = Dict::new();
            for i in 0..d.len() {
                let (k, x) = d.entry(i);
                e.insert(k.clone(), dup(x));
            }
            Value::Dictionary(e)
        }
        Value::FormObject(t) => Value::FormObject(t.clone()),
        Value::BuiltinFunction(t) => Value::BuiltinFunction(t.clone()),
        Value::Function(h) => Value::Function(*h),
        Value::Figure(h) => Value::Figure(*h),
    }
}

fn num(x: f64) -> Value {
    Value::Number(x.to_bits())
}

fn s(t: &str) -> Value {
    Value::String(t.to_string())
}

fn err(r: Result<Value, String>) -> String {
    match r {
        Err(e) => e,
        Ok(v) => panic!("expected an error, got {:?}", v),
    }
}

fn number(r: Result<Value, String>) -> f64 {
    match r {
        Ok(Value::Number(b)) => f64::from_bits(b),
        other => panic!("expected a number, got {:?}", other),
    }
}

fn flag(r: Result<Value, String>) -> bool {
    match r {
        Ok(Value::Bool(b)) => b,
        other => panic!("expected a flag, got {:?}", other),
    }
}

fn text_of(r: Result<Value, String>) -> String {
    match r {
        Ok(Value::String(t)) => t,
        other => panic!("expected a text, got {:?}", other),
    }
}

fn id_of(r: Result<Value, String>) -> String {
    text_of(r)
}

fn form(ui: &mut Ui) -> Value {
    createform(ui, vec![s("F"), num(300.0), num(200.0)]).unwrap()
}

// ---------------------------------------------------------------- timers

#[test]
fn timer_defaults_and_switching() {
    let mut ui = Ui::new();
    let t = id_of(createtimer(&mut ui, vec![]));
    assert_eq!(number(gettimerinterval(&ui, vec![s(&t)])), 1000.0);
    assert!(!flag(gettimerenabled(&ui, vec![s(&t)])));
    starttimer(&mut ui, vec![s(&t)]).unwrap();
    assert!(flag(gettimerenabled(&ui, vec![s(&t)])));
    assert!(ui.timers.get(&t).unwrap().last_tick.is_some());
    stoptimer(&mut ui, vec![s(&t)]).unwrap();
    assert!(!flag(gettimerenabled(&ui, vec![s(&t)])));
    settimerenabled(&mut ui, vec![s(&t), Value::Bool(true)]).unwrap();
    assert!(flag(gettimerenabled(&ui, vec![s(&t)])));
}

#[test]
fn timer_interval_saturates() {
    let mut ui = Ui::new();
    let t = id_of(createtimer(&mut ui, vec![num(250.0), Value::Function(1)]));
    assert_eq!(number(gettimerinterval(&ui, vec![s(&t)])), 250.0);
    settimerinterval(&mut ui, vec![s(&t), num(-5.0)]).unwrap();
    assert_eq!(number(gettimerinterval(&ui, vec![s(&t)])), 0.0);
    settimerinterval(&mut ui, vec![s(&t), num(1e12)]).unwrap();
    assert_eq!(number(gettimerinterval(&ui, vec![s(&t)])), u32::MAX as f64);
    settimerinterval(&mut ui, vec![s(&t), num(12.9)]).unwrap();
    assert_eq!(number(gettimerinterval(&ui, vec![s(&t)])), 12.0);
    assert_eq!(err(starttimer(&mut ui, vec![s("nope")])), "Timer not found");
    assert_eq!(
        err(createtimer(&mut ui, vec![num(1.0), num(1.0), num(1.0)])),
        "createtimer() expects 0-2 arguments ([interval, callback]), got 3"
    );
}

// ----------------------------------------------------------------- pages

fn pages(n: usize, fade: bool) -> PagesState {
    PagesState {
        pages: (0..n)
            .map(|i| Page { title: format!("p{}", i), control_ids: Vec::new() })
            .collect(),
        active_page_index: 0,
        transition_alpha: ALPHA_OPAQUE,
        in_transition: false,
        transition_start_time: None,
        use_transition: fade,
    }
}

#[test]
fn page_shown_is_read_back() {
    let mut ui = Ui::new();
    ui.pages.insert("pg".to_string(), pages(3, false));
    showpage(&mut ui, vec![s("pg"), num(2.0)]).unwrap();
    assert_eq!(number(getpageindex(&ui, vec![s("pg")])), 2.0);
    assert!(!ui.pages.get(&"pg".to_string()).unwrap().in_transition);
    assert_eq!(err(showpage(&mut ui, vec![s("pg"), num(3.0)])), "Page index out of bounds");
    assert_eq!(err(showpage(&mut ui, vec![s("zz"), num(0.0)])), "Pages ID not found");
    assert_eq!(
        err(showpage(&mut ui, vec![s("pg"), s("1")])),
        "Second argument must be a page index (number)"
    );
}

#[test]
fn page_fades_in_when_asked() {
    let mut ui = Ui::new();
    ui.pages.insert("pg".to_string(), pages(2, false));
    settransition(&mut ui, vec![s("pg"), Value::Bool(true)]).unwrap();
    showpage(&mut ui, vec![s("pg"), num(1.0)]).unwrap();
    let st = ui.pages.get(&"pg".to_string()).unwrap();
    assert!(st.in_transition);
    assert_eq!(st.transition_alpha, 0);
    assert!(st.transition_start_time.is_some());
}

#[test]
fn hiding_shown_page_shows_next() {
    let mut ui = Ui::new();
    ui.pages.insert("pg".to_string(), pages(3, false));
    showpage(&mut ui, vec![s("pg"), num(2.0)]).unwrap();
    hidepage(&mut ui, vec![s("pg"), num(2.0)]).unwrap();
    assert_eq!(number(getpageindex(&ui, vec![s("pg")])), 0.0);
    hidepage(&mut ui, vec![s("pg"), num(1.0)]).unwrap();
    assert_eq!(number(getpageindex(&ui, vec![s("pg")])), 0.0);
}

#[test]
fn pages_added_and_removed() {
    let mut ui = Ui::new();
    ui.pages.insert("pg".to_string(), pages(1, false));
    addpage(&mut ui, vec![s("pg"), s("second")]).unwrap();
    let st = ui.pages.get(&"pg".to_string()).unwrap();
    assert_eq!(st.pages.len(), 2);
    assert_eq!(st.pages[1].title, "second");
    removepage(&mut ui, vec![s("pg"), num(0.0)]).unwrap();
    let st = ui.pages.get(&"pg".to_string()).unwrap();
    assert_eq!(st.pages.len(), 1);
    assert_eq!(st.pages[0].title, "second");
    assert_eq!(err(removepage(&mut ui, vec![s("pg"), num(5.0)])), "Page index out of bounds");
}

// --------------------------------------------------------------- dialogs

#[test]
fn dialog_options_read_back() {
    let mut ui = Ui::new();
    assert!(matches!(get_dialog_title(&ui, vec![]), Ok(Value::Null)));
    set_dialog_title(&mut ui, vec![s("Open")]).unwrap();
    assert_eq!(text_of(get_dialog_title(&ui, vec![])), "Open");
    set_dialog_multiselect(&mut ui, vec![Value::Bool(true)]).unwrap();
    assert!(flag(get_dialog_multiselect(&ui, vec![])));
}

#[test]
fn dialog_results() {
    let mut ui = Ui::new();
    assert_eq!(text_of(get_dialog_result(&ui, vec![s("d1")])), "result_pending_d1");
    ui.dialog_results.insert("d1".to_string(), Some("/tmp/a.txt".to_string()));
    ui.dialog_results.insert("d2".to_string(), None);
    assert_eq!(text_of(get_dialog_result(&ui, vec![s("d1")])), "/tmp/a.txt");
    assert!(matches!(get_dialog_result(&ui, vec![s("d2")]), Ok(Value::Null)));
}

// ----------------------------------------------------------------- grids

fn grid(rows: usize, cols: usize) -> GridLayoutState {
    GridLayoutState {
        rows,
        cols,
        spacing: 5f32.to_bits(),
        cell_controls: vec![vec![None; cols]; rows],
        show_grid_lines: false,
        line_color: Color { r: 0, g: 0, b: 0, a: 255 },
        line_thickness: 1f32.to_bits(),
    }
}

#[test]
fn grid_rows_and_columns() {
    let mut ui = Ui::new();
    ui.grids.insert("g".to_string(), grid(2, 2));
    setgridlayoutrows(&mut ui, vec![s("g"), num(4.0)]).unwrap();
    assert_eq!(number(getgridlayoutrows(&ui, vec![s("g")])), 4.0);
    let g = ui.grids.get(&"g".to_string()).unwrap();
    assert_eq!(g.cell_controls.len(), 4);
    assert!(g.cell_controls.iter().all(|r| r.len() == 2));
    addgridlayoutrow(&mut ui, vec![s("g")]).unwrap();
    addgridlayoutcolumn(&mut ui, vec![s("g")]).unwrap();
    assert_eq!(number(getgridlayoutrows(&ui, vec![s("g")])), 5.0);
    assert_eq!(number(getgridlayoutcolumns(&ui, vec![s("g")])), 3.0);
    let g = ui.grids.get(&"g".to_string()).unwrap();
    assert!(g.cell_controls.iter().all(|r| r.len() == 3));
    assert_eq!(err(setgridlayoutrows(&mut ui, vec![s("g"), num(0.0)])), "Rows must be at least 1");
    assert_eq!(err(getgridlayoutrows(&ui, vec![s("h")])), "GridLayout not found");
}

// ----------------------------------------------------------------- turtle

fn turtle() -> DrawyState {
    DrawyState {
        position: (0, 0),
        heading: 0,
        pen_down: true,
        pen_size: 1f32.to_bits(),
        pen_color: Color { r: 0, g: 0, b: 0, a: 255 },
        fill_color: Color { r: 0, g: 0, b: 0, a: 255 },
        speed: 1f32.to_bits(),
        fill_path: Vec::new(),
        filling: false,
        path: Vec::new(),
        pending_moves: Vec::new(),
    }
}

#[test]
fn turtle_pen_and_fill() {
    let mut ui = Ui::new();
    ui.drawings.insert("t".to_string(), turtle());
    drawy_penup(&mut ui, vec![s("t")]).unwrap();
    assert!(!ui.drawings.get(&"t".to_string()).unwrap().pen_down);
    drawy_pendown(&mut ui, vec![s("t")]).unwrap();
    assert!(ui.drawings.get(&"t".to_string()).unwrap().pen_down);
    drawy_begin_fill(&mut ui, vec![s("t")]).unwrap();
    let d = ui.drawings.get(&"t".to_string()).unwrap();
    assert!(d.filling);
    assert_eq!(d.fill_path, vec![(0, 0)]);
    drawy_end_fill(&mut ui, vec![s("t")]).unwrap();
    assert!(!ui.drawings.get(&"t".to_string()).unwrap().filling);
    assert_eq!(err(drawy_penup(&mut ui, vec![s("x")])), "Turtle state not found");
}

// ---------------------------------------------------------------- layout

#[test]
fn positions_read_back() {
    let mut ui = Ui::new();
    let f = form(&mut ui);
    let a = id_of(createprogressbar(&mut ui, vec![dup(&f)]));
    let b = id_of(createprogressbar(&mut ui, vec![dup(&f)]));
    set_x(&mut ui, vec![s(&a), num(3.0)]).unwrap();
    set_y(&mut ui, vec![s(&a), num(40.0)]).unwrap();
    assert_eq!(number(get_x(&ui, vec![s(&a)])), 3.0);
    assert_eq!(number(get_y(&ui, vec![s(&a)])), 40.0);
    let fid = match &f {
        Value::FormObject(t) => t.clone(),
        _ => panic!("not a form"),
    };
    set_position(&mut ui, vec![dup(&f), num(12.5), num(7.0)]).unwrap();
    let pos = ui.forms.get(&fid).unwrap().position.unwrap();
    assert_eq!((f32::from_bits(pos.0), f32::from_bits(pos.1)), (12.5, 7.0));
    set_left(&mut ui, vec![s(&a), s(&b), num(8.0)]).unwrap();
    match &ui.controls.get(&a).unwrap().layout_constraint {
        Some(LayoutConstraint::LeftOf { target_id, space }) => {
            assert_eq!(target_id, &b);
            assert_eq!(f32::from_bits(*space), 8.0);
        }
        _ => panic!("no constraint"),
    }
    assert_eq!(err(set_below(&mut ui, vec![s(&a), s("zz")])), "Target control not found");
    set_padding(&mut ui, vec![s(&a), num(1.0), num(2.0), num(3.0), num(4.0)]).unwrap();
    let p = ui.controls.get(&a).unwrap().padding;
    assert_eq!((f32::from_bits(p.0), f32::from_bits(p.3)), (1.0, 4.0));
    set_margin(&mut ui, vec![s(&a), num(5.0), num(6.0), num(7.0), num(8.0)]).unwrap();
    let m = ui.controls.get(&a).unwrap().margin;
    assert_eq!((f32::from_bits(m.1), f32::from_bits(m.2)), (6.0, 7.0));
}

// ---------------------------------------------------------------- gauges

#[test]
fn scrollbar_values_stay_in_bounds() {
    let mut ui = Ui::new();
    let f = form(&mut ui);
    let sb = id_of(createscrollbar(&mut ui, vec![dup(&f), s("Vertical")]));
    assert_eq!(number(getscrollmax(&ui, vec![s(&sb)])), 100.0);
    setscrollvalue(&mut ui, vec![s(&sb), num(150.0)]).unwrap();
    assert_eq!(number(getscrollvalue(&ui, vec![s(&sb)])), 100.0);
    setscrollvalue(&mut ui, vec![s(&sb), num(-3.0)]).unwrap();
    assert_eq!(number(getscrollvalue(&ui, vec![s(&sb)])), 0.0);
    setscrollvalue(&mut ui, vec![s(&sb), num(60.0)]).unwrap();
    setscrollmax(&mut ui, vec![s(&sb), num(50.0)]).unwrap();
    assert_eq!(number(getscrollvalue(&ui, vec![s(&sb)])), 50.0);
    setscrollmin(&mut ui, vec![s(&sb), num(55.0)]).unwrap();
    assert_eq!(number(getscrollmin(&ui, vec![s(&sb)])), 55.0);
    assert_eq!(number(getscrollvalue(&ui, vec![s(&sb)])), 55.0);
    setsmallchange(&mut ui, vec![s(&sb), num(-2.0)]).unwrap();
    assert_eq!(number(getsmallchange(&ui, vec![s(&sb)])), 0.0);
    assert_eq!(
        err(createscrollbar(&mut ui, vec![f, s("diagonal")])),
        "createscrollbar() expects 'horizontal' or 'vertical'"
    );
    assert_eq!(err(getscrollvalue(&ui, vec![s("q")])), "ScrollBar not found");
}

#[test]
fn progressbar_value_min_max() {
    let mut ui = Ui::new();
    let f = form(&mut ui);
    let pb = id_of(createprogressbar(&mut ui, vec![f]));
    assert_eq!(number(getmax(&ui, vec![s(&pb)])), 100.0);
    setvalue(&mut ui, vec![s(&pb), num(42.0)]).unwrap();
    assert_eq!(number(getvalue(&ui, vec![s(&pb)])), 42.0);
    setvalue(&mut ui, vec![s(&pb), num(420.0)]).unwrap();
    assert_eq!(number(getvalue(&ui, vec![s(&pb)])), 100.0);
    setmax(&mut ui, vec![s(&pb), num(80.0)]).unwrap();
    assert_eq!(number(getvalue(&ui, vec![s(&pb)])), 80.0);
    setmin(&mut ui, vec![s(&pb), num(10.0)]).unwrap();
    assert_eq!(number(getmin(&ui, vec![s(&pb)])), 10.0);
    setbarstyle(&mut ui, vec![s(&pb), s("Marquee")]).unwrap();
    assert_eq!(ui.progressbars.get(&pb).unwrap().style, BarStyle::Marquee);
    assert_eq!(text_of(getbarstyle(&ui, vec![s(&pb)])), "marquee");
    setbarcolor(&mut ui, vec![s(&pb), s("10,20,30")]).unwrap();
    assert_eq!(text_of(getbarcolor(&ui, vec![s(&pb)])), "10,20,30");
    assert_eq!(
        err(setvalue(&mut ui, vec![s("none"), num(1.0)])),
        "Control not found. Supported controls: ProgressBar, Slider, NumberBox"
    );
    assert_eq!(err(getmax(&ui, vec![s("none")])), "Control (Progrssbar, Slider, Numberbox) not found");
}

#[test]
fn numberbox_value_is_due_for_text() {
    let mut ui = Ui::new();
    ui.numberboxes.insert(
        "nb".to_string(),
        NumberBoxState {
            value: 0f64.to_bits(),
            min: 0f64.to_bits(),
            max: 10f64.to_bits(),
            increment: 1f64.to_bits(),
            decimals: 2,
        },
    );
    setvalue(&mut ui, vec![s("nb"), num(7.25)]).unwrap();
    assert_eq!(number(getvalue(&ui, vec![s("nb")])), 7.25);
    setvalue(&mut ui, vec![s("nb"), num(70.0)]).unwrap();
    assert_eq!(number(getvalue(&ui, vec![s("nb")])), 10.0);
    assert_eq!(ui.number_texts_due, vec!["nb".to_string(), "nb".to_string()]);
}

#[test]
fn picturebox_image_and_mode() {
    let mut ui = Ui::new();
    let f = form(&mut ui);
    let pic = id_of(createpicturebox(&mut ui, vec![f]));
    setimage(&mut ui, vec![s(&pic), s("cat.png")]).unwrap();
    let st = ui.pictureboxes.get(&pic).unwrap();
    assert_eq!(st.image_path.as_deref(), Some("cat.png"));
    assert!(!st.texture_loaded);
    setsizemode(&mut ui, vec![s(&pic), s("zoom")]).unwrap();
    assert_eq!(ui.pictureboxes.get(&pic).unwrap().size_mode, SizeMode::Zoom);
    assert_eq!(
        err(setsizemode(&mut ui, vec![s(&pic), s("tile")])),
        "setsizemode() expects 'normal', 'stretch', or 'zoom'"
    );
}

// ----------------------------------------------------------------- trees

fn node(id: &str, children: Vec<TreeNode>) -> TreeNode {
    TreeNode {
        id: id.to_string(),
        text: id.to_uppercase(),
        children,
        expanded: false,
        icon: None,
        checkbox: None,
    }
}

fn tree_ui() -> Ui {
    let mut ui = Ui::new();
    ui.treeviews.insert(
        "tv".to_string(),
        TreeViewState {
            nodes: vec![node("a", vec![node("a1", vec![]), node("a2", vec![node("deep", vec![])])]), node("b", vec![])],
            selected_node: None,
        },
    );
    ui
}

#[test]
fn tree_node_changes_at_depth() {
    let mut ui = tree_ui();
    treeview_set_node_icon(&mut ui, vec![s("tv"), s("deep"), s("leaf.png")]).unwrap();
    treeview_set_node_checkbox(&mut ui, vec![s("tv"), s("a1"), Value::Bool(true)]).unwrap();
    let tv = ui.treeviews.get(&"tv".to_string()).unwrap();
    assert_eq!(tv.nodes[0].children[1].children[0].icon.as_deref(), Some("leaf.png"));
    assert_eq!(tv.nodes[0].children[0].checkbox, Some(true));
    assert_eq!(tv.nodes[1].checkbox, None);
    assert_eq!(
        err(treeview_set_node_icon(&mut ui, vec![s("tv"), s("zz"), Value::Null])),
        "Node not found"
    );
    assert_eq!(
        err(treeview_set_node_icon(&mut ui, vec![s("xx"), s("a"), Value::Null])),
        "TreeView not found"
    );
}

#[test]
fn tree_selection_read_back() {
    let mut ui = tree_ui();
    assert!(matches!(treeview_get_selected(&ui, vec![s("tv")]), Ok(Value::Null)));
    treeview_set_selected(&mut ui, vec![s("tv"), s("b")]).unwrap();
    assert_eq!(text_of(treeview_get_selected(&ui, vec![s("tv")])), "b");
}

#[test]
fn tree_node_as_dictionary() {
    let ui = tree_ui();
    let d = treeview_get_node(&ui, vec![s("tv"), s("a2")], &decimals).unwrap();
    let d2 = treeview_get_node(&ui, vec![s("tv"), s("a2")], &decimals).unwrap();
    assert_eq!(text_of(get(vec![d, s("text")], &decimals)), "A2");
    match get(vec![d2, s("children")], &decimals) {
        Ok(Value::Array(kids)) => {
            assert_eq!(kids.len(), 1);
            match &kids[0] {
                Value::Dictionary(_) => {}
                other => panic!("child is not a dictionary: {:?}", other),
            }
        }
        other => panic!("no children: {:?}", other),
    }
    assert_eq!(err(treeview_get_node(&ui, vec![s("tv"), s("q")], &decimals)), "Node 'q' not found");
    assert_eq!(err(treeview_get_node(&ui, vec![s("t2"), s("q")], &decimals)), "TreeView not found for id 't2'");
}

#[test]
fn registry_last_write_wins() {
    let mut r: Registry<u32> = Registry::new();
    r.insert("k".to_string(), 1);
    r.insert("k".to_string(), 2);
    assert_eq!(r.get(&"k".to_string()), Some(&2));
    assert!(r.remove(&"k".to_string()));
    assert_eq!(r.get(&"k".to_string()), None);
    assert!(!r.remove(&"k".to_string()));
}
