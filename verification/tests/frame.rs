use easybite::create::{createform, createlabel, createtimer};
use easybite::frame::{controls_to_draw, finish_app, start_app, tick_timers, timer_elapsed};
use easybite::ui::{set_fullscreen, set_startposition, setvisibility, ControlSettings, Page, PagesState, Ui};
use easybite::widgets::starttimer;
use easybite::value::{Dict, Value};

fn dup(v: &Value) -> Value {
    match v {
        Value::Number(b) => Value::Number(*b),
        Value::String(t) => Value::String(t.clone()),
        Value::Bool(b) => Value::Bool(*b),
        Value::Null => Value::Null,
        Value::Array(a) => Value::Array(a.iter().map(dup).collect()),
        Value::Dictionary(d) => {
            let mut e = Dict::new();
            for i in 0..d.len() {
                let (k, x) = d.entry(i);
                e.insert(k.clone(), dup(x));
            }
            Value::Dictionary(e)
        }
        Value::FormObject(t) => Value::FormObject(t.clone()),
        Value::BuiltinFunction(t) => Value::BuiltinFunction(t.clone()),
        Value::Function(h) => Value::Function(*h),
        Value::Figure(h) => Value::Figure(*h),
    }
}

fn num(x: f64) -> Value {
    Value::Number(x.to_bits())
}

fn s(t: &str) -> Value {
    Value::String(t.to_string())
}

fn err(r: Result<Value, String>) -> String {
    match r {
        Err(e) => e,
        Ok(v) => panic!("expected an error, got {:?}", v),
    }
}

fn number(r: Result<Value, String>) -> f64 {
    match r {
        Ok(Value::Number(b)) => f64::from_bits(b),
        other => panic!("expected a number, got {:?}", other),
    }
}

fn flag(r: Result<Value, String>) -> bool {
    match r {
        Ok(Value::Bool(b)) => b,
        other => panic!("expected a flag, got {:?}", other),
    }
}

fn text_of(r: Result<Value, String>) -> String {
    match r {
        Ok(Value::String(t)) => t,
        other => panic!("expected a text, got {:?}", other),
    }
}

fn id_of(r: Result<Value, String>) -> String {
    text_of(r)
}

fn form(ui: &mut Ui) -> Value {
    createform(ui, vec![s("F"), num(300.0), num(200.0)]).unwrap()
}


#[test]
fn due_timers_fire_in_order() {
    let mut ui = Ui::new();
    let a = id_of(createtimer(&mut ui, vec![num(100.0), Value::Function(1)]));
    let b = id_of(createtimer(&mut ui, vec![num(50.0)]));
    let c = id_of(createtimer(&mut ui, vec![num(10.0), Value::Function(3)]));
    starttimer(&mut ui, vec![s(&a)]).unwrap();
    starttimer(&mut ui, vec![s(&b)]).unwrap();
    let now = std::time::Instant::now();
    let elapsed = timer_elapsed(&ui, &now);
    assert_eq!(elapsed.len(), 3);
    assert!(elapsed[0].is_some() && elapsed[1].is_some() && elapsed[2].is_none());
    let (fired, any) = tick_timers(&mut ui, now, &vec![Some(150), Some(20), None]);
    assert!(any);
    assert_eq!(fired.len(), 1);
    assert!(matches!(fired[0], Value::Function(1)));
    assert_eq!(ui.timers.get(&a).unwrap().last_tick, Some(now));
    assert_ne!(ui.timers.get(&b).unwrap().last_tick, Some(now));
    assert!(ui.timers.get(&c).unwrap().last_tick.is_none());
}

#[test]
fn due_timer_without_script_callback_fires_nothing() {
    let mut ui = Ui::new();
    let a = id_of(createtimer(&mut ui, vec![num(10.0), s("not a function")]));
    starttimer(&mut ui, vec![s(&a)]).unwrap();
    let now = std::time::Instant::now();
    let (fired, any) = tick_timers(&mut ui, now, &vec![Some(50)]);
    assert!(any);
    assert!(fired.is_empty());
    assert_eq!(ui.timers.get(&a).unwrap().last_tick, Some(now));
}

#[test]
fn no_timer_running() {
    let mut ui = Ui::new();
    let _ = id_of(createtimer(&mut ui, vec![num(1.0), Value::Function(1)]));
    let now = std::time::Instant::now();
    let (fired, any) = tick_timers(&mut ui, now, &vec![Some(1000)]);
    assert!(!any);
    assert!(fired.is_empty());
}

#[test]
fn drawn_controls_of_form() {
    let mut ui = Ui::new();
    let f = form(&mut ui);
    let fid = match &f {
        Value::FormObject(t) => t.clone(),
        _ => panic!("not a form"),
    };
    let other = form(&mut ui);
    let a = id_of(createlabel(&mut ui, vec![dup(&f), s("a")]));
    let b = id_of(createlabel(&mut ui, vec![dup(&f), s("b")]));
    let c = id_of(createlabel(&mut ui, vec![dup(&f), s("c")]));
    let hidden = id_of(createlabel(&mut ui, vec![dup(&f), s("h")]));
    let _elsewhere = id_of(createlabel(&mut ui, vec![other, s("o")]));
    setvisibility(&mut ui, vec![s(&hidden), Value::Bool(false)]).unwrap();
    let mut panel = ControlSettings::new("panel".to_string(), fid.clone());
    panel.children = vec![b.clone()];
    ui.controls.insert("panel1".to_string(), panel);
    ui.pages.insert(
        "pg".to_string(),
        PagesState {
            pages: vec![Page { title: "p".to_string(), control_ids: vec![c.clone()] }],
            active_page_index: 0,
            transition_alpha: 0,
            in_transition: false,
            transition_start_time: None,
            use_transition: false,
        },
    );
    assert_eq!(controls_to_draw(&ui, &fid, true), vec![a.clone(), "panel1".to_string()]);
    assert_eq!(controls_to_draw(&ui, &fid, false), vec![a, b, "panel1".to_string()]);
}

#[test]
fn app_start_and_finish() {
    let mut ui = Ui::new();
    let f = form(&mut ui);
    let fid = match &f {
        Value::FormObject(t) => t.clone(),
        _ => panic!("not a form"),
    };
    let plan = start_app(&mut ui, vec![dup(&f)]).unwrap();
    assert_eq!(plan.title, "F");
    assert_eq!(plan.inner_size.map(|(w, h)| (f32::from_bits(w), f32::from_bits(h))), Some((300.0, 200.0)));
    assert_eq!(plan.position, None);
    assert!(ui.running);
    assert!(ui.forms.get(&fid).unwrap().visible);
    assert_eq!(*ui.form_visibilities.get(&fid).unwrap(), true);
    finish_app(&mut ui);
    assert!(!ui.running);
    set_fullscreen(&mut ui, vec![dup(&f), Value::Bool(true)]).unwrap();
    set_startposition(&mut ui, vec![dup(&f), s("manual")]).unwrap();
    ui.forms.get(&fid).unwrap();
    let plan = start_app(&mut ui, vec![f]).unwrap();
    assert!(plan.inner_size.is_none());
    assert!(plan.fullscreen);
    match start_app(&mut ui, vec![Value::FormObject("x".to_string())]) {
        Err(e) => assert_eq!(e, "Form not found"),
        Ok(_) => panic!("expected an error"),
    }
}
