use easybite::color::parse_color;
use easybite::create::{
    createbutton, createcheckbox, createform, createlabel, createradiobox, createtextbox,
};
use easybite::ui::{
    close_form, color_string, exit, get_backcolor, get_border, get_cursor, get_forecolor,
    get_fullscreen, get_maximized, get_multiline, get_resizable, get_startposition, getchecked,
    getdock, getenabled, getvisibility, hide_form, restore_form, set_backcolor, set_border,
    set_cursor, set_forecolor, set_fullscreen, set_maximized, set_multiline, set_resizable,
    set_startposition, setchecked, setclickhandler, setdock, setenabled, setvisibility,
    show_form, Color, DockStyle, Ui,
};
use easybite::value::{Dict, Value};

fn dup(v: &Value) -> Value {
    match v {
        Value::Number(b) => Value::Number(*b),
        Value::String(t) => Value::String(t.clone()),
        Value::Bool(b) => Value::Bool(*b),
        Value::Null => Value::Null,
        Value::Array(a) => Value::Array(a.iter().map(dup).collect()),
        Value::Dictionary(d) => {
            let mut e = Dict::new();
            for i in 0..d.len() {
                let (k, x) = d.entry(i);
                e.insert(k.clone(), dup(x));
            }
            Value::Dictionary(e)
        }
        Value::FormObject(t) => Value::FormObject(t.clone()),
        Value::BuiltinFunction(t) => Value::BuiltinFunction(t.clone()),
        Value::Function(h) => Value::Function(*h),
        Value::Figure(h) => Value::Figure(*h),
    }
}

fn num(x: f64) -> Value {
    Value::Number(x.to_bits())
}

fn s(t: &str) -> Value {
    Value::String(t.to_string())
}

fn err(r: Result<Value, String>) -> String {
    match r {
        Err(e) => e,
        Ok(v) => panic!("expected an error, got {:?}", v),
    }
}

fn flag(r: Result<Value, String>) -> bool {
    match r {
        Ok(Value::Bool(b)) => b,
        other => panic!("expected a flag, got {:?}", other),
    }
}

fn text_of(r: Result<Value, String>) -> String {
    match r {
        Ok(Value::String(t)) => t,
        other => panic!("expected a text, got {:?}", other),
    }
}

fn new_form(ui: &mut Ui) -> (Value, String) {
    match createform(ui, vec![s("Main"), num(640.0), num(480.0)]).unwrap() {
        Value::FormObject(id) => (Value::FormObject(id.clone()), id),
        other => panic!("not a form: {:?}", other),
    }
}

fn control(r: Result<Value, String>) -> String {
    match r {
        Ok(Value::String(id)) => id,
        other => panic!("not a control: {:?}", other),
    }
}

fn is_uuid(t: &str) -> bool {
    let b = t.as_bytes();
    b.len() == 36
        && (0..36).all(|i| {
            if i == 8 || i == 13 || i == 18 || i == 23 {
                b[i] == b'-'
            } else {
                b[i].is_ascii_digit() || (b'a'..=b'f').contains(&b[i])
            }
        })
}

#[test]
fn createform_defaults() {
    let mut ui = Ui::new();
    let (f, id) = new_form(&mut ui);
    assert!(is_uuid(&id));
    let settings = ui.forms.get(&id).unwrap();
    assert_eq!(settings.title, "Main");
    assert_eq!(f32::from_bits(settings.width), 640.0);
    assert_eq!(f32::from_bits(settings.height), 480.0);
    assert!(!settings.visible);
    assert_eq!(settings.startposition, "centerscreen");
    assert!(flag(get_resizable(&ui, vec![dup(&f)])));
    assert!(flag(get_border(&ui, vec![dup(&f)])));
    assert!(!flag(get_maximized(&ui, vec![dup(&f)])));
    assert!(!flag(get_fullscreen(&ui, vec![f])));
}

#[test]
fn createform_errors() {
    let mut ui = Ui::new();
    assert_eq!(err(createform(&mut ui, vec![])), "createform() expects 3 arguments, got 0");
    assert_eq!(
        err(createform(&mut ui, vec![num(1.0), num(1.0), num(1.0)])),
        "createform() expects a string for title"
    );
    assert_eq!(
        err(createform(&mut ui, vec![s("t"), s("1"), num(1.0)])),
        "createform() expects a number for width"
    );
    assert_eq!(
        err(createform(&mut ui, vec![s("t"), num(1.0), s("1")])),
        "createform() expects a number for height"
    );
}

#[test]
fn two_forms_have_different_identifiers() {
    let mut ui = Ui::new();
    let (_, a) = new_form(&mut ui);
    let (_, b) = new_form(&mut ui);
    assert_ne!(a, b);
}

#[test]
fn form_flags_read_back() {
    let mut ui = Ui::new();
    let (f, _) = new_form(&mut ui);
    for b in [true, false] {
        set_maximized(&mut ui, vec![dup(&f), Value::Bool(b)]).unwrap();
        assert_eq!(flag(get_maximized(&ui, vec![dup(&f)])), b);
        set_fullscreen(&mut ui, vec![dup(&f), Value::Bool(b)]).unwrap();
        assert_eq!(flag(get_fullscreen(&ui, vec![dup(&f)])), b);
        set_resizable(&mut ui, vec![dup(&f), Value::Bool(b)]).unwrap();
        assert_eq!(flag(get_resizable(&ui, vec![dup(&f)])), b);
        set_border(&mut ui, vec![dup(&f), Value::Bool(b)]).unwrap();
        assert_eq!(flag(get_border(&ui, vec![dup(&f)])), b);
    }
}

#[test]
fn form_flag_errors() {
    let mut ui = Ui::new();
    let (f, _) = new_form(&mut ui);
    assert_eq!(err(set_maximized(&mut ui, vec![dup(&f)])), "set_maximized() expects 2 arguments, got 1");
    assert_eq!(
        err(set_maximized(&mut ui, vec![s("x"), Value::Bool(true)])),
        "set_maximized() expects a Form identifier"
    );
    assert_eq!(
        err(set_maximized(&mut ui, vec![f, num(1.0)])),
        "set_maximized() expects a boolean"
    );
    let ghost = Value::FormObject("nope".to_string());
    assert_eq!(err(set_border(&mut ui, vec![dup(&ghost), Value::Bool(true)])), "Form not found");
    assert_eq!(err(get_border(&ui, vec![ghost])), "Form not found");
}

#[test]
fn start_position() {
    let mut ui = Ui::new();
    let (f, _) = new_form(&mut ui);
    set_startposition(&mut ui, vec![dup(&f), s("manual")]).unwrap();
    assert_eq!(text_of(get_startposition(&ui, vec![dup(&f)])), "manual");
    assert_eq!(
        err(set_startposition(&mut ui, vec![dup(&f), s("middle")])),
        "startposition must be 'centerscreen' or 'manual'"
    );
    assert_eq!(text_of(get_startposition(&ui, vec![f])), "manual");
}

#[test]
fn show_hide_restore_close() {
    let mut ui = Ui::new();
    let (f, id) = new_form(&mut ui);
    show_form(&mut ui, vec![dup(&f)]).unwrap();
    assert!(ui.forms.get(&id).unwrap().visible);
    assert_eq!(*ui.form_visibilities.get(&id).unwrap(), true);
    set_maximized(&mut ui, vec![dup(&f), Value::Bool(true)]).unwrap();
    restore_form(&mut ui, vec![dup(&f)]).unwrap();
    assert!(!flag(get_maximized(&ui, vec![dup(&f)])));
    hide_form(&mut ui, vec![dup(&f)]).unwrap();
    assert!(!ui.forms.get(&id).unwrap().visible);
    close_form(&mut ui, vec![dup(&f)]).unwrap();
    assert_eq!(err(get_border(&ui, vec![dup(&f)])), "Form not found");
    assert_eq!(err(close_form(&mut ui, vec![f])), "Form not found");
}

#[test]
fn exit_needs_running_loop() {
    let mut ui = Ui::new();
    assert_eq!(err(exit(&mut ui, vec![])), "Application not running");
    assert!(!ui.exit_requested);
    ui.running = true;
    assert!(matches!(exit(&mut ui, vec![]), Ok(Value::Null)));
    assert!(ui.exit_requested);
    assert_eq!(err(exit(&mut ui, vec![num(1.0)])), "exit() expects 0 arguments, got 1");
}

#[test]
fn label_created_on_form() {
    let mut ui = Ui::new();
    let (f, fid) = new_form(&mut ui);
    let id = control(createlabel(&mut ui, vec![dup(&f), s("Hello"), num(10.0), num(20.0)]));
    assert!(is_uuid(&id));
    let c = ui.controls.get(&id).unwrap();
    assert_eq!(c.control_type, "label");
    assert_eq!(c.text, "Hello");
    assert_eq!(c.form_id, fid);
    assert_eq!(f32::from_bits(c.x), 10.0);
    assert_eq!(f32::from_bits(c.y), 20.0);
    assert_eq!(f32::from_bits(c.width), 100.0);
    assert_eq!(f32::from_bits(c.height), 20.0);
    assert!(c.autosize);
    assert_eq!(c.fontname, "Proportional");
    assert_eq!(f32::from_bits(c.fontsize), 14.0);
    assert_eq!(ui.forms.get(&fid).unwrap().controls_order, vec![id]);
}

#[test]
fn creation_errors() {
    let mut ui = Ui::new();
    let (f, _) = new_form(&mut ui);
    assert_eq!(
        err(createlabel(&mut ui, vec![dup(&f)])),
        "createlabel() expects 2-12 arguments (form_id, text, [x, y, width, height, autosize, fontname, fontsize, fontweight, forecolor, backcolor]), got 1"
    );
    assert_eq!(
        err(createlabel(&mut ui, vec![s("f"), s("t")])),
        "createlabel() expects a Form identifier"
    );
    assert_eq!(
        err(createtextbox(&mut ui, vec![f, num(1.0)])),
        "createtextbox() expects a string for text"
    );
    assert_eq!(
        err(createbutton(&mut ui, vec![Value::FormObject("nope".to_string()), s("t")])),
        "Parent form not found"
    );
}

#[test]
fn control_flags_read_back() {
    let mut ui = Ui::new();
    let (f, _) = new_form(&mut ui);
    let id = control(createbutton(&mut ui, vec![f, s("Go")]));
    let c = s(&id);
    assert!(flag(getenabled(&ui, vec![dup(&c)])));
    setenabled(&mut ui, vec![dup(&c), Value::Bool(false)]).unwrap();
    assert!(!flag(getenabled(&ui, vec![dup(&c)])));
    setvisibility(&mut ui, vec![dup(&c), Value::Bool(false)]).unwrap();
    assert!(!flag(getvisibility(&ui, vec![dup(&c)])));
    assert_eq!(err(getenabled(&ui, vec![s("nope")])), "Control not found");
}

#[test]
fn multiline_only_for_textboxes() {
    let mut ui = Ui::new();
    let (f, _) = new_form(&mut ui);
    let tb = s(&control(createtextbox(&mut ui, vec![dup(&f), s("")])));
    set_multiline(&mut ui, vec![dup(&tb), Value::Bool(true)]).unwrap();
    assert!(flag(get_multiline(&ui, vec![tb])));
    let lb = s(&control(createlabel(&mut ui, vec![f, s("")])));
    assert_eq!(
        err(get_multiline(&ui, vec![lb])),
        "get_multiline() can only be used with textboxes"
    );
}

#[test]
fn dock_names_any_case() {
    let mut ui = Ui::new();
    let (f, _) = new_form(&mut ui);
    let id = control(createbutton(&mut ui, vec![f, s("Go")]));
    setdock(&mut ui, vec![s(&id), s("Fill")]).unwrap();
    assert_eq!(ui.controls.get(&id).unwrap().dock, DockStyle::Fill);
    assert_eq!(text_of(getdock(&ui, vec![s(&id)])), "fill");
    assert_eq!(
        err(setdock(&mut ui, vec![s(&id), s("middle")])),
        "Invalid dock style: use 'none', 'top', 'bottom', 'left', 'right', 'fill'"
    );
}

#[test]
fn cursor_read_back() {
    let mut ui = Ui::new();
    let (f, _) = new_form(&mut ui);
    let id = control(createbutton(&mut ui, vec![f, s("Go")]));
    assert_eq!(text_of(get_cursor(&ui, vec![s(&id)])), "Hand");
    set_cursor(&mut ui, vec![s(&id), s("hand")]).unwrap();
    assert_eq!(text_of(get_cursor(&ui, vec![s(&id)])), "hand");
}

#[test]
fn click_handler_is_kept() {
    let mut ui = Ui::new();
    let (f, _) = new_form(&mut ui);
    let id = control(createbutton(&mut ui, vec![f, s("Go")]));
    setclickhandler(&mut ui, vec![s(&id), Value::Function(3)]).unwrap();
    assert!(matches!(ui.controls.get(&id).unwrap().callback, Some(Value::Function(3))));
}

#[test]
fn checkbox_checked_read_back() {
    let mut ui = Ui::new();
    let (f, _) = new_form(&mut ui);
    let id = control(createcheckbox(&mut ui, vec![f, s("Agree")]));
    assert!(!flag(getchecked(&ui, vec![s(&id)])));
    setchecked(&mut ui, vec![s(&id), Value::Bool(true)]).unwrap();
    assert!(flag(getchecked(&ui, vec![s(&id)])));
}

#[test]
fn radio_group_has_one_checked() {
    let mut ui = Ui::new();
    let (f, fid) = new_form(&mut ui);
    let a = control(createradiobox(&mut ui, vec![dup(&f), s("A"), s("g")]));
    let b = control(createradiobox(&mut ui, vec![dup(&f), s("B"), s("g")]));
    let other = control(createradiobox(&mut ui, vec![f, s("C"), s("h")]));
    setchecked(&mut ui, vec![s(&other), Value::Bool(true)]).unwrap();
    setchecked(&mut ui, vec![s(&a), Value::Bool(true)]).unwrap();
    assert!(flag(getchecked(&ui, vec![s(&a)])));
    setchecked(&mut ui, vec![s(&b), Value::Bool(true)]).unwrap();
    assert!(flag(getchecked(&ui, vec![s(&b)])));
    assert!(!flag(getchecked(&ui, vec![s(&a)])));
    assert!(flag(getchecked(&ui, vec![s(&other)])));
    assert_eq!(
        *ui.radio_selections.get(&fid).unwrap().get(&"g".to_string()).unwrap(),
        b
    );
}

#[test]
fn colours_read_back() {
    let mut ui = Ui::new();
    let (f, fid) = new_form(&mut ui);
    let id = control(createlabel(&mut ui, vec![dup(&f), s("x")]));
    set_forecolor(&mut ui, vec![s(&id), s("255,0,0")]).unwrap();
    assert_eq!(text_of(get_forecolor(&ui, vec![s(&id)])), "255,0,0");
    set_forecolor(&mut ui, vec![s(&id), s("not a colour")]).unwrap();
    assert_eq!(text_of(get_forecolor(&ui, vec![s(&id)])), "0,0,0");
    set_backcolor(&mut ui, vec![s(&id), s("#00FF80")]).unwrap();
    assert_eq!(text_of(get_backcolor(&ui, vec![s(&id)])), "0,255,128");
    set_backcolor(&mut ui, vec![f, s("blue")]).unwrap();
    assert_eq!(ui.forms.get(&fid).unwrap().bg_color, Color { r: 0, g: 0, b: 255, a: 255 });
}

#[test]
fn colour_texts() {
    let c = |t: &str| parse_color(&t.to_string());
    assert_eq!(c("RED"), Some(Color { r: 255, g: 0, b: 0, a: 255 }));
    assert_eq!(c("0x0a0B0c"), Some(Color { r: 10, g: 11, b: 12, a: 255 }));
    assert_eq!(c(" 1 , 2 ,3 "), Some(Color { r: 1, g: 2, b: 3, a: 255 }));
    assert_eq!(c("1,2"), None);
    assert_eq!(c("256,0,0"), None);
    assert_eq!(c("#12345"), None);
    assert_eq!(color_string(Color { r: 7, g: 80, b: 255, a: 0 }), "7,80,255");
}
