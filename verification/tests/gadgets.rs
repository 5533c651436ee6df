use easybite::containers::create_treeview;
use easybite::create::{createform, createlabel, createtextbox};
use easybite::gadgets::{
    colordialog_get_color, colordialog_show, create_colordialog, create_imagebutton, create_richtext,
    create_slider, create_statusbar, create_toolbar, gettext, richtext_set_format, set_text_alignment,
    settext, toolbar_add_item,
};
use easybite::gauges::{getvalue, setvalue};
use easybite::menus::{
    add_menu_item, add_separator_item, add_submenu_item, createmenu, get_menu_item_icon, parse_menu_item,
    set_menu_item_icon,
};
use easybite::tables::{createtable, get_table_data, set_table_data};
use easybite::trees::{treeview_add_node, treeview_get_node, treeview_set_node_icon};
use easybite::ui::{Color, DockStyle, Orientation, TextAlign, Ui};
use easybite::value::{Dict, Value};

/// How a number reads: its `f64` `Display` text and its `Debug` text.
fn decimals(b: u64) -> (String, String) {
    let x = f64::from_bits(b);
    (x.to_string(), format!("{:?}", x))
}

fn dup(v: &Value) -> Value {
    match v {
        Value::Number(b) => Value::Number(*b),
        Value::String(t) => Value::String(t.clone()),
        Value::Bool(b) => Value::Bool(*b),
        Value::Null => Value::Null,
        Value::Array(a) => Value::Array(a.iter().map(dup).collect()),
        Value::Dictionary(d) => {
            let mut e = Dict::new();
            for i in 0..d.len() {
                let (k, x) = d.entry(i);
                e.insert(k.clone(), dup(x));
            }
            Value::Dictionary(e)
        }
        Value::FormObject(t) => Value::FormObject(t.clone()),
        Value::BuiltinFunction(t) => Value::BuiltinFunction(t.clone()),
        Value::Function(h) => Value::Function(*h),
        Value::Figure(h) => Value::Figure(*h),
    }
}

fn num(x: f64) -> Value {
    Value::Number(x.to_bits())
}

fn s(t: &str) -> Value {
    Value::String(t.to_string())
}

fn err(r: Result<Value, String>) -> String {
    match r {
        Err(e) => e,
        Ok(v) => panic!("expected an error, got {:?}", v),
    }
}

fn number(r: Result<Value, String>) -> f64 {
    match r {
        Ok(Value::Number(b)) => f64::from_bits(b),
        other => panic!("expected a number, got {:?}", other),
    }
}

fn flag(r: Result<Value, String>) -> bool {
    match r {
        Ok(Value::Bool(b)) => b,
        other => panic!("expected a flag, got {:?}", other),
    }
}

fn text_of(r: Result<Value, String>) -> String {
    match r {
        Ok(Value::String(t)) => t,
        other => panic!("expected a text, got {:?}", other),
    }
}

fn id_of(r: Result<Value, String>) -> String {
    text_of(r)
}

fn form(ui: &mut Ui) -> Value {
    createform(ui, vec![s("F"), num(300.0), num(200.0)]).unwrap()
}


#[test]
fn slider_created() {
    let mut ui = Ui::new();
    let f = form(&mut ui);
    let sl = id_of(create_slider(&mut ui, vec![dup(&f), s("VERTICAL")]));
    assert_eq!(ui.sliders.get(&sl).unwrap().orientation, Orientation::Vertical);
    assert_eq!(number(getvalue(&ui, vec![s(&sl)])), 0.0);
    setvalue(&mut ui, vec![s(&sl), num(150.0)]).unwrap();
    assert_eq!(number(getvalue(&ui, vec![s(&sl)])), 100.0);
    assert_eq!(err(create_slider(&mut ui, vec![dup(&f), s("up")])), "orientation must be 'horizontal' or 'vertical'");
    assert_eq!(err(create_slider(&mut ui, vec![f, num(1.0)])), "orientation must be a string");
}

#[test]
fn texts_of_controls_and_forms() {
    let mut ui = Ui::new();
    let f = form(&mut ui);
    let tb = id_of(createtextbox(&mut ui, vec![dup(&f), s("a")]));
    settext(&mut ui, vec![s(&tb), s("hello")]).unwrap();
    assert_eq!(text_of(gettext(&ui, vec![s(&tb)])), "hello");
    assert_eq!(ui.text_updates_due, vec![(tb.clone(), "hello".to_string())]);
    let rt = id_of(create_richtext(&mut ui, vec![dup(&f)]));
    settext(&mut ui, vec![s(&rt), s("rich")]).unwrap();
    assert_eq!(text_of(gettext(&ui, vec![s(&rt)])), "rich");
    let sb = id_of(create_statusbar(&mut ui, vec![dup(&f), s("Busy")]));
    assert_eq!(ui.controls.get(&sb).unwrap().text, "Busy");
    assert_eq!(text_of(gettext(&ui, vec![s(&sb)])), "Ready");
    settext(&mut ui, vec![s(&sb), s("Done")]).unwrap();
    assert_eq!(text_of(gettext(&ui, vec![s(&sb)])), "Done");
    settext(&mut ui, vec![dup(&f), s("Title")]).unwrap();
    assert_eq!(text_of(gettext(&ui, vec![f])), "Title");
    assert_eq!(err(settext(&mut ui, vec![s(&tb), num(1.0)])), "settext() expects a string for text");
    assert_eq!(err(gettext(&ui, vec![s("none")])), "Control not found");
}

#[test]
fn richtext_formats() {
    let mut ui = Ui::new();
    let f = form(&mut ui);
    let rt = id_of(create_richtext(&mut ui, vec![f]));
    settext(&mut ui, vec![s(&rt), s("héllo")]).unwrap();
    richtext_set_format(&mut ui, vec![s(&rt), num(0.0), num(6.0), Value::Bool(true), Value::Bool(true)]).unwrap();
    assert_eq!(ui.richtexts.get(&rt).unwrap().formats, vec![(0, 6, true)]);
    assert_eq!(
        err(richtext_set_format(&mut ui, vec![s(&rt), num(0.0), num(7.0), Value::Bool(true), Value::Bool(false)])),
        "Invalid range"
    );
    assert_eq!(
        err(richtext_set_format(&mut ui, vec![s(&rt), num(0.0), num(1.0), num(1.0), Value::Bool(false)])),
        "bold must be a boolean"
    );
}

#[test]
fn toolbar_items() {
    let mut ui = Ui::new();
    let f = form(&mut ui);
    let tb = id_of(create_toolbar(&mut ui, vec![f]));
    assert_eq!(ui.controls.get(&tb).unwrap().dock, DockStyle::Top);
    toolbar_add_item(&mut ui, vec![s(&tb), s("Open"), s("open.png"), Value::Function(4)]).unwrap();
    toolbar_add_item(&mut ui, vec![s(&tb), s("Save"), num(1.0)]).unwrap();
    let st = ui.toolbars.get(&tb).unwrap();
    assert_eq!(st.items.len(), 2);
    assert_eq!(st.items[0].icon.as_deref(), Some("open.png"));
    assert!(matches!(st.items[0].callback, Some(Value::Function(4))));
    assert!(st.items[1].icon.is_none());
    assert!(st.items[1].callback.is_none());
    assert_eq!(err(toolbar_add_item(&mut ui, vec![s("x"), s("y")])), "Toolbar not found");
}

#[test]
fn imagebutton_and_colordialog() {
    let mut ui = Ui::new();
    let f = form(&mut ui);
    let ib = id_of(create_imagebutton(&mut ui, vec![dup(&f)]));
    assert_eq!(f32::from_bits(ui.controls.get(&ib).unwrap().width), 50.0);
    let cd = id_of(create_colordialog(&mut ui, vec![f]));
    assert!(!ui.colordialogs.get(&cd).unwrap().is_open);
    colordialog_show(&mut ui, vec![s(&cd)]).unwrap();
    assert!(ui.colordialogs.get(&cd).unwrap().is_open);
    assert_eq!(text_of(colordialog_get_color(&ui, vec![s(&cd)])), "255,255,255");
    let slot = ui.colordialogs.find(&cd).unwrap();
    ui.colordialogs.value_mut(slot).selected_color = Color { r: 10, g: 171, b: 255, a: 255 };
    assert_eq!(text_of(colordialog_get_color(&ui, vec![s(&cd), s("HEX")])), "#0AABFF");
    assert_eq!(text_of(colordialog_get_color(&ui, vec![s(&cd), s("rgb")])), "10,171,255");
    assert_eq!(
        err(colordialog_get_color(&ui, vec![s(&cd), s("hsl")])),
        "Invalid format. Use \"rgb\" or \"hex\"."
    );
}

#[test]
fn alignment_names() {
    let mut ui = Ui::new();
    let f = form(&mut ui);
    let l = id_of(createlabel(&mut ui, vec![f, s("x")]));
    set_text_alignment(&mut ui, vec![s(&l), s("bottomright")]).unwrap();
    assert_eq!(ui.controls.get(&l).unwrap().text_alignment, TextAlign::RightBottom);
    assert!(err(set_text_alignment(&mut ui, vec![s(&l), s("middle")])).starts_with("Invalid alignment"));
}

#[test]
fn menus_nest_items() {
    let mut ui = Ui::new();
    let f = form(&mut ui);
    let m = id_of(createmenu(&mut ui, vec![f]));
    assert_eq!(f32::from_bits(ui.controls.get(&m).unwrap().width), 300.0);
    assert_eq!(ui.controls.get(&m).unwrap().text, "menu");
    let kids = Value::Array(vec![
        Value::Array(vec![s("New"), Value::Null]),
        Value::Array(vec![s("Open"), Value::Function(2), Value::Array(vec![]), Value::Bool(false), s("o.png")]),
    ]);
    add_menu_item(&mut ui, vec![s(&m), s("File"), Value::Function(1), kids]).unwrap();
    add_menu_item(&mut ui, vec![s(&m), s("Edit")]).unwrap();
    add_submenu_item(&mut ui, vec![s(&m), s("Open"), s("Recent")]).unwrap();
    {
        let st = ui.menus.get(&m).unwrap();
        assert_eq!(st.items.len(), 2);
        assert_eq!(st.items[0].children.len(), 2);
        assert_eq!(st.items[0].children[1].children[0].label, "Recent");
        assert_eq!(st.items[0].children[1].icon.as_deref(), Some("o.png"));
    }
    assert!(matches!(get_menu_item_icon(&ui, vec![s(&m), s("Open")]), Ok(Value::String(t)) if t == "o.png"));
    set_menu_item_icon(&mut ui, vec![s(&m), s("Recent"), s("r.png")]).unwrap();
    assert!(matches!(get_menu_item_icon(&ui, vec![s(&m), s("Recent")]), Ok(Value::String(t)) if t == "r.png"));
    assert!(matches!(get_menu_item_icon(&ui, vec![s(&m), s("Edit")]), Ok(Value::Null)));
    assert_eq!(err(add_submenu_item(&mut ui, vec![s(&m), s("Nope"), s("x")])), "Menu item 'Nope' not found");
    assert_eq!(err(get_menu_item_icon(&ui, vec![s(&m), s("Nope")])), "Menu item not found");
    add_separator_item(&mut ui, vec![]).unwrap();
    let st = ui.menus.get(&m).unwrap();
    assert_eq!(st.items.len(), 3);
    assert!(st.items[2].is_separator);
}

#[test]
fn separator_needs_long_menu() {
    let mut ui = Ui::new();
    assert_eq!(
        err(add_separator_item(&mut ui, vec![])),
        "No valid menu found or not enough items to insert a separator"
    );
}

#[test]
fn menu_items_from_values() {
    let item = parse_menu_item(&Value::Array(vec![num(3.0)]));
    assert_eq!(item.label, "Invalid label");
    let item = parse_menu_item(&s("x"));
    assert_eq!(item.label, "Invalid");
    let item = parse_menu_item(&Value::Array(vec![s("A"), Value::Null, num(1.0), Value::Bool(true)]));
    assert!(item.is_separator);
    assert!(item.children.is_empty());
    assert!(matches!(item.callback, Some(Value::Null)));
}

#[test]
fn table_data_round_trip() {
    let mut ui = Ui::new();
    let f = form(&mut ui);
    let t = id_of(createtable(&mut ui, vec![f, num(0.0), num(0.0), num(100.0), num(50.0), s("Mono"), num(10.0), s("red"), s("blue"), s("center_top")]));
    {
        let c = ui.controls.get(&t).unwrap();
        assert_eq!(c.text_alignment, TextAlign::CenterTop);
        assert_eq!(c.fontname, "Mono");
        assert_eq!(c.backcolor, Color { r: 0, g: 0, b: 255, a: 255 });
    }
    set_table_data(&mut ui, vec![
        s(&t),
        Value::Array(vec![s("name"), s("age")]),
        Value::Array(vec![Value::Array(vec![s("ann"), s("7")]), Value::Array(vec![s("bob"), Value::Bool(true)])]),
    ], &decimals)
    .unwrap();
    let st = ui.tables.get(&t).unwrap();
    assert_eq!(st.headers, vec!["name", "age"]);
    assert_eq!(st.rows[1][1], "true");
    match get_table_data(&ui, vec![s(&t)]) {
        Ok(Value::Array(pair)) => {
            assert_eq!(pair.len(), 2);
            match &pair[1] {
                Value::Array(rows) => assert_eq!(rows.len(), 2),
                other => panic!("rows: {:?}", other),
            }
        }
        other => panic!("unexpected {:?}", other),
    }
    assert_eq!(
        err(set_table_data(&mut ui, vec![s(&t), Value::Array(vec![s("a")]), Value::Array(vec![Value::Array(vec![])])], &decimals)),
        "Row has 0 cells, but expected 1 to match headers"
    );
    assert_eq!(
        err(set_table_data(&mut ui, vec![s(&t), Value::Array(vec![]), Value::Array(vec![num(1.0)])], &decimals)),
        "Each row must be an array of cell values"
    );
}

#[test]
fn tree_nodes_added() {
    let mut ui = Ui::new();
    let f = form(&mut ui);
    let tv = id_of(create_treeview(&mut ui, vec![f]));
    let root = id_of(treeview_add_node(&mut ui, vec![s(&tv), s("Root")]));
    let child = id_of(treeview_add_node(&mut ui, vec![s(&tv), s("Child"), s(&root)]));
    let grand = id_of(treeview_add_node(&mut ui, vec![s(&tv), s("Grand"), s(&child)]));
    let st = ui.treeviews.get(&tv).unwrap();
    assert_eq!(st.nodes.len(), 1);
    assert_eq!(st.nodes[0].children[0].id, child);
    assert_eq!(st.nodes[0].children[0].children[0].id, grand);
    assert_eq!(st.nodes[0].children[0].children[0].text, "Grand");
    assert!(treeview_get_node(&ui, vec![s(&tv), s(&grand)], &decimals).is_ok());
    assert_eq!(err(treeview_add_node(&mut ui, vec![s(&tv), s("x"), s("nope")])), "Parent node not found");
}

#[test]
fn table_cells_show_numbers_as_decimals() {
    let mut ui = Ui::new();
    let f = form(&mut ui);
    let t = id_of(createtable(&mut ui, vec![f]));
    set_table_data(&mut ui, vec![
        s(&t),
        Value::Array(vec![num(1.0), s("b")]),
        Value::Array(vec![Value::Array(vec![num(2.5), Value::Null])]),
    ], &decimals)
    .unwrap();
    let st = ui.tables.get(&t).unwrap();
    assert_eq!(st.headers, vec!["1", "b"]);
    assert_eq!(st.rows[0], vec!["2.5", "null"]);
}

#[test]
fn added_node_reads_back_with_its_icon() {
    let mut ui = Ui::new();
    let f = form(&mut ui);
    let tv = id_of(create_treeview(&mut ui, vec![f]));
    let n = id_of(treeview_add_node(&mut ui, vec![s(&tv), s("A")]));
    assert!(matches!(treeview_set_node_icon(&mut ui, vec![s(&tv), s(&n), s("a.png")]), Ok(Value::Null)));
    match treeview_get_node(&ui, vec![s(&tv), s(&n)], &decimals) {
        Ok(Value::Dictionary(d)) => {
            assert_eq!(d.len(), 6);
            let keys: Vec<String> = (0..6).map(|i| d.entry(i).0.clone()).collect();
            assert_eq!(keys, vec!["id", "text", "expanded", "icon", "checkbox", "children"]);
            assert!(matches!(d.entry(0).1, Value::String(x) if *x == n));
            assert!(matches!(d.entry(1).1, Value::String(x) if x == "A"));
            assert!(matches!(d.entry(2).1, Value::Bool(false)));
            assert!(matches!(d.entry(3).1, Value::String(x) if x == "a.png"));
            assert!(matches!(d.entry(4).1, Value::Null));
            assert!(matches!(d.entry(5).1, Value::Array(c) if c.is_empty()));
        }
        other => panic!("unexpected {:?}", other),
    }
}
