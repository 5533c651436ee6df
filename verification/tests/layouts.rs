use easybite::arrange::{
    add_to_container, add_to_page, drawy_left, drawy_pencolor, drawy_right, drawy_speed, getspacing,
    set_gridline_color, set_gridline_thickness, setgridlayoutcell, setspacing,
};
use easybite::containers::{
    createcard, creategridlayout, creategroupbox, createhorizontallayout, createpages, createpanel,
    createseparator, createshape, createsidebar, createflowlayout, createverticallayout, create_treeview,
};
use easybite::create::{createform, createlabel};
use easybite::turtle::{drawy_circle, drawy_forward, drawy_goto, take_float_work, turtle_face, turtle_place, turtle_step};
use easybite::ui::{Color, DockStyle, FloatWork, Ui};
use easybite::value::{Dict, Value};
use easybite::widgets::{
    addgridlayoutcolumn, addgridlayoutrow, getgridlayoutcolumns, getgridlayoutrows, getpageindex, setgridlayoutcolumns,
    setgridlayoutrows,
};

fn dup(v: &Value) -> Value {
    match v {
        Value::Number(b) => Value::Number(*b),
        Value::String(t) => Value::String(t.clone()),
        Value::Bool(b) => Value::Bool(*b),
        Value::Null => Value::Null,
        Value::Array(a) => Value::Array(a.iter().map(dup).collect()),
        Value::Dictionary(d) => {
            let mut e = Dict::new();
            for i in 0..d.len() {
                let (k, x) = d.entry(i);
                e.insert(k.clone(), dup(x));
            }
            Value::Dictionary(e)
        }
        Value::FormObject(t) => Value::FormObject(t.clone()),
        Value::BuiltinFunction(t) => Value::BuiltinFunction(t.clone()),
        Value::Function(h) => Value::Function(*h),
        Value::Figure(h) => Value::Figure(*h),
    }
}

fn num(x: f64) -> Value {
    Value::Number(x.to_bits())
}

fn s(t: &str) -> Value {
    Value::String(t.to_string())
}

fn err(r: Result<Value, String>) -> String {
    match r {
        Err(e) => e,
        Ok(v) => panic!("expected an error, got {:?}", v),
    }
}

fn number(r: Result<Value, String>) -> f64 {
    match r {
        Ok(Value::Number(b)) => f64::from_bits(b),
        other => panic!("expected a number, got {:?}", other),
    }
}

fn flag(r: Result<Value, String>) -> bool {
    match r {
        Ok(Value::Bool(b)) => b,
        other => panic!("expected a flag, got {:?}", other),
    }
}

fn text_of(r: Result<Value, String>) -> String {
    match r {
        Ok(Value::String(t)) => t,
        other => panic!("expected a text, got {:?}", other),
    }
}

fn id_of(r: Result<Value, String>) -> String {
    text_of(r)
}

fn form(ui: &mut Ui) -> Value {
    createform(ui, vec![s("F"), num(300.0), num(200.0)]).unwrap()
}


fn form_id(f: &Value) -> String {
    match f {
        Value::FormObject(t) => t.clone(),
        _ => panic!("not a form"),
    }
}

#[test]
fn groupbox_panel_card_sidebar() {
    let mut ui = Ui::new();
    let f = form(&mut ui);
    let g = id_of(creategroupbox(&mut ui, vec![dup(&f), s("Options"), num(1.0), num(2.0)]));
    let c = ui.controls.get(&g).unwrap();
    assert_eq!(c.control_type, "groupbox");
    assert_eq!(c.text, "Options");
    assert!(c.border);
    assert_eq!((f32::from_bits(c.width), f32::from_bits(c.height)), (200.0, 100.0));
    let p = id_of(createpanel(&mut ui, vec![dup(&f), num(0.0), num(0.0), num(50.0), num(60.0), Value::Bool(true)]));
    let c = ui.controls.get(&p).unwrap();
    assert!(c.border);
    assert_eq!(f32::from_bits(c.width), 50.0);
    let k = id_of(createcard(&mut ui, vec![dup(&f)]));
    let c = ui.controls.get(&k).unwrap();
    assert!(c.shadow);
    assert_eq!(c.backcolor, Color { r: 255, g: 255, b: 255, a: 255 });
    assert_eq!(f32::from_bits(c.padding.0), 10.0);
    let sb = id_of(createsidebar(&mut ui, vec![dup(&f), num(0.0), num(120.0), s("right")]));
    let c = ui.controls.get(&sb).unwrap();
    assert_eq!(c.dock, DockStyle::Right);
    assert_eq!(f32::from_bits(c.width), 120.0);
    let sb2 = id_of(createsidebar(&mut ui, vec![dup(&f), num(0.0), num(120.0), s("Right")]));
    assert_eq!(ui.controls.get(&sb2).unwrap().dock, DockStyle::Left);
    assert_eq!(err(creategroupbox(&mut ui, vec![f, num(1.0)])), "creategroupbox() expects a title string");
}

#[test]
fn boxes_do_not_need_the_form() {
    let mut ui = Ui::new();
    let p = id_of(createpanel(&mut ui, vec![Value::FormObject("ghost".to_string())]));
    assert_eq!(ui.controls.get(&p).unwrap().form_id, "ghost");
    assert_eq!(
        err(createhorizontallayout(&mut ui, vec![Value::FormObject("ghost".to_string())])),
        "Parent form not found"
    );
}

#[test]
fn layouts_and_spacing() {
    let mut ui = Ui::new();
    let f = form(&mut ui);
    let h = id_of(createhorizontallayout(&mut ui, vec![dup(&f)]));
    let v = id_of(createverticallayout(&mut ui, vec![dup(&f)]));
    let fl = id_of(createflowlayout(&mut ui, vec![dup(&f)]));
    assert_eq!(number(getspacing(&ui, vec![s(&h)])), 5.0);
    assert!(ui.flowlayouts.get(&fl).unwrap().wrap);
    setspacing(&mut ui, vec![s(&h), num(12.0)]).unwrap();
    assert_eq!(number(getspacing(&ui, vec![s(&h)])), 12.0);
    assert_eq!(err(setspacing(&mut ui, vec![s(&v), num(-1.0)])), "Spacing must be non-negative");
    setspacing(&mut ui, vec![s(&fl), num(-1.0)]).unwrap();
    assert_eq!(number(getspacing(&ui, vec![s(&fl)])), -1.0);
    assert_eq!(
        err(getspacing(&ui, vec![s("none")])),
        "Layout not found. Supported layouts: FlowLayout, HorizontalLayout, VerticalLayout"
    );
}

#[test]
fn grid_cells() {
    let mut ui = Ui::new();
    let f = form(&mut ui);
    let fid = form_id(&f);
    let g = id_of(creategridlayout(&mut ui, vec![dup(&f), num(2.0), num(3.0)]));
    let a = id_of(createlabel(&mut ui, vec![dup(&f), s("a")]));
    let b = id_of(createlabel(&mut ui, vec![dup(&f), s("b")]));
    {
        let st = ui.grids.get(&g).unwrap();
        assert_eq!((st.rows, st.cols), (2, 3));
        assert_eq!(st.cell_controls.len(), 2);
        assert!(st.cell_controls.iter().all(|r| r.len() == 3 && r.iter().all(|c| c.is_none())));
    }
    setgridlayoutcell(&mut ui, vec![s(&g), num(1.0), num(2.0), s(&a)]).unwrap();
    assert_eq!(ui.grids.get(&g).unwrap().cell_controls[1][2].as_deref(), Some(a.as_str()));
    assert_eq!(ui.controls.get(&g).unwrap().children, vec![a.clone()]);
    assert!(!ui.forms.get(&fid).unwrap().controls_order.contains(&a));
    setgridlayoutcell(&mut ui, vec![s(&g), num(1.0), num(2.0), s(&b)]).unwrap();
    assert_eq!(ui.controls.get(&g).unwrap().children, vec![b.clone()]);
    assert_eq!(
        err(setgridlayoutcell(&mut ui, vec![s(&g), num(2.0), num(0.0), s(&b)])),
        "Row or column index out of bounds"
    );
    set_gridline_color(&mut ui, vec![s(&g), s("nonsense")]).unwrap();
    assert_eq!(ui.grids.get(&g).unwrap().line_color, Color { r: 160, g: 160, b: 160, a: 255 });
    set_gridline_thickness(&mut ui, vec![s(&g), num(3.0)]).unwrap();
    assert_eq!(f32::from_bits(ui.grids.get(&g).unwrap().line_thickness), 3.0);
    assert_eq!(err(set_gridline_thickness(&mut ui, vec![s(&g), num(-3.0)])), "Thickness must be non-negative");
}

#[test]
fn pages_created_and_filled() {
    let mut ui = Ui::new();
    let f = form(&mut ui);
    let fid = form_id(&f);
    let p = id_of(createpages(&mut ui, vec![dup(&f), Value::Array(vec![s("One"), s("Two")]), Value::Bool(true), num(4.0)]));
    {
        let c = ui.controls.get(&p).unwrap();
        assert_eq!(c.dock, DockStyle::Fill);
        assert!(c.use_as_default_panel);
        assert_eq!(f32::from_bits(c.x), 4.0);
        let st = ui.pages.get(&p).unwrap();
        assert_eq!(st.pages.len(), 2);
        assert_eq!(st.pages[1].title, "Two");
        assert!(st.use_transition);
    }
    let p2 = id_of(createpages(&mut ui, vec![dup(&f)]));
    assert_eq!(ui.pages.get(&p2).unwrap().pages[0].title, "Page 1");
    assert_eq!(number(getpageindex(&ui, vec![s(&p2)])), 0.0);
    assert_eq!(
        err(createpages(&mut ui, vec![dup(&f), Value::Array(vec![num(1.0)])])),
        "createpages() expects page_titles to be an array of strings"
    );
    let l = id_of(createlabel(&mut ui, vec![dup(&f), s("x")]));
    add_to_page(&mut ui, vec![s(&p), num(1.0), s(&l)]).unwrap();
    assert_eq!(ui.pages.get(&p).unwrap().pages[1].control_ids, vec![l.clone()]);
    assert!(!ui.forms.get(&fid).unwrap().controls_order.contains(&l));
    assert_eq!(err(add_to_page(&mut ui, vec![s(&p), num(2.0), s(&l)])), "Page index out of bounds");
}

#[test]
fn container_takes_child() {
    let mut ui = Ui::new();
    let f = form(&mut ui);
    let other = form(&mut ui);
    let fid = form_id(&f);
    let panel = id_of(createpanel(&mut ui, vec![dup(&f), num(10.0), num(20.0)]));
    let l = id_of(createlabel(&mut ui, vec![dup(&other), s("x")]));
    add_to_container(&mut ui, vec![s(&panel), s(&l)]).unwrap();
    assert_eq!(ui.controls.get(&l).unwrap().form_id, fid);
    assert_eq!(ui.controls.get(&panel).unwrap().children, vec![l.clone()]);
    match ui.float_work.last() {
        Some(FloatWork::Shift { id, dx, dy }) => {
            assert_eq!(id, &l);
            assert_eq!((f32::from_bits(*dx), f32::from_bits(*dy)), (10.0, 20.0));
        }
        _ => panic!("no shift due"),
    }
    let l2 = id_of(createlabel(&mut ui, vec![dup(&f), s("y")]));
    assert_eq!(err(add_to_container(&mut ui, vec![s(&l2), s(&l)])), "Identifier must be a container");
    assert_eq!(err(add_to_container(&mut ui, vec![s("none"), s(&l)])), "Container not found");
}

#[test]
fn separator_shape_treeview() {
    let mut ui = Ui::new();
    let f = form(&mut ui);
    let sep = id_of(createseparator(&mut ui, vec![dup(&f), s("vertical")]));
    let c = ui.controls.get(&sep).unwrap();
    assert_eq!(c.orientation, "vertical");
    assert_eq!(f32::from_bits(c.height), 2.0);
    let sh = id_of(createshape(&mut ui, vec![dup(&f), num(0.0), num(0.0), num(40.0), num(40.0), s("dashed")]));
    assert_eq!(ui.controls.get(&sh).unwrap().border_style, "dashed");
    assert!(matches!(ui.float_work.last(), Some(FloatWork::CenterTurtle { id }) if id == &sh));
    let d = ui.drawings.get(&sh).unwrap();
    assert!(d.pen_down);
    assert_eq!(f32::from_bits(d.pen_size), 2.0);
    let tv = id_of(create_treeview(&mut ui, vec![f]));
    assert!(ui.treeviews.get(&tv).unwrap().nodes.is_empty());
}

#[test]
fn turtle_speed_colour_turns() {
    let mut ui = Ui::new();
    let f = form(&mut ui);
    let sh = id_of(createshape(&mut ui, vec![f]));
    drawy_speed(&mut ui, vec![s(&sh), num(7.0)]).unwrap();
    assert_eq!(f32::from_bits(ui.drawings.get(&sh).unwrap().speed), 7.0);
    assert_eq!(err(drawy_speed(&mut ui, vec![s(&sh), num(11.0)])), "Speed must be between 0 and 10");
    assert_eq!(err(drawy_speed(&mut ui, vec![s(&sh), num(-0.5)])), "Speed must be between 0 and 10");
    drawy_pencolor(&mut ui, vec![s(&sh), s("red")]).unwrap();
    assert_eq!(ui.drawings.get(&sh).unwrap().pen_color, Color { r: 255, g: 0, b: 0, a: 255 });
    drawy_left(&mut ui, vec![s(&sh), num(90.0)]).unwrap();
    assert!(matches!(ui.float_work.last(), Some(FloatWork::Turn { left: true, .. })));
    drawy_right(&mut ui, vec![s(&sh), num(45.0)]).unwrap();
    match ui.float_work.last() {
        Some(FloatWork::Turn { id, degrees, left }) => {
            assert_eq!(id, &sh);
            assert_eq!(f32::from_bits(*degrees), 45.0);
            assert!(!left);
        }
        _ => panic!("no turn due"),
    }
    assert_eq!(err(drawy_left(&mut ui, vec![s("zz"), num(1.0)])), "Turtle state not found");
}

fn assert_shaped(ui: &Ui, g: &str, rows: usize, cols: usize) {
    let st = ui.grids.get(&g.to_string()).unwrap();
    assert_eq!((st.rows, st.cols), (rows, cols));
    assert_eq!(st.cell_controls.len(), rows);
    assert!(st.cell_controls.iter().all(|r| r.len() == cols));
}

#[test]
fn grid_keeps_its_shape() {
    let mut ui = Ui::new();
    let f = form(&mut ui);
    let g = id_of(creategridlayout(&mut ui, vec![dup(&f), num(2.0), num(3.0)]));
    let a = id_of(createlabel(&mut ui, vec![dup(&f), s("a")]));
    assert_shaped(&ui, &g, 2, 3);
    setgridlayoutcell(&mut ui, vec![s(&g), num(1.0), num(2.0), s(&a)]).unwrap();
    assert_shaped(&ui, &g, 2, 3);
    setgridlayoutrows(&mut ui, vec![s(&g), num(4.0)]).unwrap();
    assert_shaped(&ui, &g, 4, 3);
    assert_eq!(ui.grids.get(&g).unwrap().cell_controls[1][2].as_deref(), Some(a.as_str()));
    setgridlayoutcolumns(&mut ui, vec![s(&g), num(1.0)]).unwrap();
    assert_shaped(&ui, &g, 4, 1);
    addgridlayoutrow(&mut ui, vec![s(&g)]).unwrap();
    assert_shaped(&ui, &g, 5, 1);
    addgridlayoutcolumn(&mut ui, vec![s(&g)]).unwrap();
    assert_shaped(&ui, &g, 5, 2);
    setgridlayoutrows(&mut ui, vec![s(&g), num(1.0)]).unwrap();
    assert_shaped(&ui, &g, 1, 2);
    assert_eq!(number(getgridlayoutrows(&ui, vec![s(&g)])), 1.0);
    assert_eq!(number(getgridlayoutcolumns(&ui, vec![s(&g)])), 2.0);
}

#[test]
fn turtle_moves_are_due_then_recorded() {
    let mut ui = Ui::new();
    let f = form(&mut ui);
    let sh = id_of(createshape(&mut ui, vec![dup(&f)]));
    let lb = id_of(createlabel(&mut ui, vec![dup(&f), s("x")]));
    take_float_work(&mut ui);
    drawy_forward(&mut ui, vec![s(&sh), num(10.0)]).unwrap();
    drawy_goto(&mut ui, vec![s(&sh), num(1.0), num(2.0)]).unwrap();
    drawy_circle(&mut ui, vec![s(&sh), num(5.0)]).unwrap();
    let due = take_float_work(&mut ui);
    assert!(ui.float_work.is_empty());
    assert!(matches!(&due[0], FloatWork::Forward { distance, .. } if f32::from_bits(*distance) == 10.0));
    assert!(matches!(&due[1], FloatWork::Goto { x, y, .. } if f32::from_bits(*x) == 1.0 && f32::from_bits(*y) == 2.0));
    assert!(matches!(&due[2], FloatWork::Circle { extent, .. } if f32::from_bits(*extent) == 360.0));
    assert_eq!(err(drawy_forward(&mut ui, vec![s(&lb), num(1.0)])), "Shape or turtle state not found");
    let slot = ui.controls.find(&sh).unwrap();
    ui.controls.value_mut(slot).control_type = "label".to_string();
    assert_eq!(err(drawy_forward(&mut ui, vec![s(&sh), num(1.0)])), "Control is not a shape");
    ui.controls.value_mut(slot).control_type = "shape".to_string();
    assert_eq!(err(drawy_forward(&mut ui, vec![s("none"), num(1.0)])), "Shape or turtle state not found");
    assert_eq!(err(drawy_goto(&mut ui, vec![s(&sh), num(1.0)])), "turtle_goto() expects 3 arguments (shape_id, x, y)");
    assert_eq!(err(drawy_circle(&mut ui, vec![s(&sh), s("r")])), "Second argument must be a number (radius)");
    let start = (0.0f32.to_bits(), 0.0f32.to_bits());
    assert!(turtle_place(&mut ui, &sh, start));
    let to = (3.0f32.to_bits(), 4.0f32.to_bits());
    assert!(turtle_step(&mut ui, &sh, to, false));
    {
        let d = ui.drawings.get(&sh).unwrap();
        assert_eq!(d.position, to);
        assert_eq!(d.path.len(), 1);
        assert_eq!((d.path[0].0, d.path[0].1), (start, to));
        assert!(d.pending_moves.is_empty());
    }
    assert!(turtle_step(&mut ui, &sh, start, true));
    assert_eq!(ui.drawings.get(&sh).unwrap().pending_moves.len(), 1);
    drawy_speed(&mut ui, vec![s(&sh), num(0.0)]).unwrap();
    assert!(turtle_step(&mut ui, &sh, to, true));
    assert_eq!(ui.drawings.get(&sh).unwrap().path.len(), 2);
    assert!(turtle_face(&mut ui, &sh, 90.0f32.to_bits()));
    assert_eq!(f32::from_bits(ui.drawings.get(&sh).unwrap().heading), 90.0);
    assert!(!turtle_step(&mut ui, &"none".to_string(), to, false));
}
