use easybite::create::{createform, createtextbox};
use easybite::lists::{
    additem, createcombobox, createlistbox, get_selected_index, get_selected_text, getitem,
    set_selected_index, set_selected_text,
};
use easybite::ui::{Color, Ui};
use easybite::value::{Dict, Value};

/// How a number reads: its `f64` `Display` text and its `Debug` text.
fn decimals(b: u64) -> (String, String) {
    let x = f64::from_bits(b);
    (x.to_string(), format!("{:?}", x))
}

fn dup(v: &Value) -> Value {
    match v {
        Value::Number(b) => Value::Number(*b),
        Value::String(t) => Value::String(t.clone()),
        Value::Bool(b) => Value::Bool(*b),
        Value::Null => Value::Null,
        Value::Array(a) => Value::Array(a.iter().map(dup).collect()),
        Value::Dictionary(d) => {
            let mut e = Dict::new();
            for i in 0..d.len() {
                let (k, x) = d.entry(i);
                e.insert(k.clone(), dup(x));
            }
            Value::Dictionary(e)
        }
        Value::FormObject(t) => Value::FormObject(t.clone()),
        Value::BuiltinFunction(t) => Value::BuiltinFunction(t.clone()),
        Value::Function(h) => Value::Function(*h),
        Value::Figure(h) => Value::Figure(*h),
    }
}

fn num(x: f64) -> Value {
    Value::Number(x.to_bits())
}

fn s(t: &str) -> Value {
    Value::String(t.to_string())
}

fn err(r: Result<Value, String>) -> String {
    match r {
        Err(e) => e,
        Ok(v) => panic!("expected an error, got {:?}", v),
    }
}

fn number(r: Result<Value, String>) -> f64 {
    match r {
        Ok(Value::Number(b)) => f64::from_bits(b),
        other => panic!("expected a number, got {:?}", other),
    }
}

fn flag(r: Result<Value, String>) -> bool {
    match r {
        Ok(Value::Bool(b)) => b,
        other => panic!("expected a flag, got {:?}", other),
    }
}

fn text_of(r: Result<Value, String>) -> String {
    match r {
        Ok(Value::String(t)) => t,
        other => panic!("expected a text, got {:?}", other),
    }
}

fn id_of(r: Result<Value, String>) -> String {
    text_of(r)
}

fn form(ui: &mut Ui) -> Value {
    createform(ui, vec![s("F"), num(300.0), num(200.0)]).unwrap()
}


fn texts(v: &[Value]) -> Vec<String> {
    v.iter()
        .map(|x| match x {
            Value::String(t) => t.clone(),
            other => panic!("not a text: {:?}", other),
        })
        .collect()
}

fn items(ui: &Ui, id: &str, combo: bool) -> Vec<String> {
    let reg = if combo { &ui.comboboxes } else { &ui.listboxes };
    texts(&reg.get(&id.to_string()).unwrap().items)
}

#[test]
fn listbox_created_with_items() {
    let mut ui = Ui::new();
    let f = form(&mut ui);
    let lb = id_of(createlistbox(&mut ui, vec![f, Value::Array(vec![s("a"), s("b"), s("c")]), num(5.0), num(6.0)], &decimals));
    let c = ui.controls.get(&lb).unwrap();
    assert_eq!(c.control_type, "listbox");
    assert_eq!(c.text, "a");
    assert_eq!(f32::from_bits(c.x), 5.0);
    assert_eq!(f32::from_bits(c.y), 6.0);
    assert_eq!(f32::from_bits(c.width), 150.0);
    assert_eq!(f32::from_bits(c.height), 100.0);
    assert_eq!(c.backcolor, Color { r: 255, g: 255, b: 255, a: 255 });
    assert_eq!(c.group.as_deref(), Some(lb.as_str()));
    assert_eq!(c.children.len(), 3);
    assert!(c.border);
    assert_eq!(items(&ui, &lb, false), vec!["a", "b", "c"]);
    assert_eq!(number(get_selected_index(&ui, vec![s(&lb)])), 0.0);
}

#[test]
fn listbox_without_items_shifts_arguments() {
    let mut ui = Ui::new();
    let f = form(&mut ui);
    let lb = id_of(createlistbox(&mut ui, vec![f, num(7.0), num(8.0), num(90.0)], &decimals));
    let c = ui.controls.get(&lb).unwrap();
    assert_eq!(f32::from_bits(c.x), 7.0);
    assert_eq!(f32::from_bits(c.width), 90.0);
    assert_eq!(c.text, "");
    assert!(items(&ui, &lb, false).is_empty());
    assert_eq!(
        err(createlistbox(&mut ui, vec![], &decimals)),
        "createlistbox() expects 1-12 arguments (form_id, [items, x, y, width, height, fontname, fontsize, fontweight, forecolor, backcolor, selected_index]), got 0"
    );
    assert_eq!(err(createlistbox(&mut ui, vec![s("f")], &decimals)), "createlistbox() expects a Form identifier");
}

#[test]
fn listbox_selected_index_argument() {
    let mut ui = Ui::new();
    let f = form(&mut ui);
    let mut args = vec![f, Value::Array(vec![s("a"), s("b")])];
    for _ in 0..9 {
        args.push(Value::Null);
    }
    args.push(num(1.0));
    let lb = id_of(createlistbox(&mut ui, args, &decimals));
    assert_eq!(number(get_selected_index(&ui, vec![s(&lb)])), 1.0);
    assert_eq!(text_of(get_selected_text(&ui, vec![s(&lb)])), "b");
}

#[test]
fn combobox_takes_text_of_textbox() {
    let mut ui = Ui::new();
    let f = form(&mut ui);
    let tb = id_of(createtextbox(&mut ui, vec![dup(&f), s("typed")]));
    let cb = id_of(createcombobox(&mut ui, vec![dup(&f), Value::Array(vec![s("x"), s("y")]), s(&tb)], &decimals));
    let c = ui.controls.get(&cb).unwrap();
    assert_eq!(c.control_type, "combobox");
    assert_eq!(c.text, "typed");
    assert_eq!(f32::from_bits(c.height), 30.0);
    let cb2 = id_of(createcombobox(&mut ui, vec![f, Value::Array(vec![s("x"), s("y")])], &decimals));
    assert_eq!(ui.controls.get(&cb2).unwrap().text, "x");
    assert_eq!(items(&ui, &cb2, true), vec!["x", "y"]);
}

#[test]
fn selecting_by_index_and_text() {
    let mut ui = Ui::new();
    let f = form(&mut ui);
    let cb = id_of(createcombobox(&mut ui, vec![f, Value::Array(vec![s("red"), s("green"), s("green")])], &decimals));
    set_selected_index(&mut ui, vec![s(&cb), num(1.0)], &decimals).unwrap();
    assert_eq!(number(get_selected_index(&ui, vec![s(&cb)])), 1.0);
    assert_eq!(text_of(get_selected_text(&ui, vec![s(&cb)])), "green");
    assert_eq!(err(set_selected_index(&mut ui, vec![s(&cb), num(3.0)], &decimals)), "Index out of bounds");
    set_selected_text(&mut ui, vec![s(&cb), s("red")], &decimals).unwrap();
    assert_eq!(number(get_selected_index(&ui, vec![s(&cb)])), 0.0);
    set_selected_text(&mut ui, vec![s(&cb), s("green")], &decimals).unwrap();
    assert_eq!(number(get_selected_index(&ui, vec![s(&cb)])), 1.0);
    assert_eq!(
        err(set_selected_text(&mut ui, vec![s(&cb), s("blue")], &decimals)),
        "Text not found in ComboBox items"
    );
    assert_eq!(err(set_selected_text(&mut ui, vec![s(&cb), num(1.0)], &decimals)), "set_selected_text() expects a string for the new text");
}

#[test]
fn list_calls_on_other_controls() {
    let mut ui = Ui::new();
    let f = form(&mut ui);
    let tb = id_of(createtextbox(&mut ui, vec![f, s("")]));
    assert_eq!(
        err(get_selected_index(&ui, vec![s(&tb)])),
        "Unsupported control type for get_selected_index"
    );
    assert_eq!(err(additem(&mut ui, vec![s(&tb), s("a")])), "additem() only works with ListBox or ComboBox");
    assert_eq!(err(getitem(&ui, vec![s("nope"), num(0.0)])), "Control not found");
}

#[test]
fn items_added_and_read() {
    let mut ui = Ui::new();
    let f = form(&mut ui);
    let lb = id_of(createlistbox(&mut ui, vec![f, Value::Array(vec![s("a"), s("d")])], &decimals));
    additem(&mut ui, vec![s(&lb), Value::Array(vec![s("b"), s("c")]), num(1.0)]).unwrap();
    additem(&mut ui, vec![s(&lb), s("e")]).unwrap();
    additem(&mut ui, vec![s(&lb), s("z"), s("not a number")]).unwrap();
    assert_eq!(items(&ui, &lb, false), vec!["z", "a", "b", "c", "d", "e"]);
    assert_eq!(err(additem(&mut ui, vec![s(&lb), s("q"), num(99.0)])), "Index out of bounds");
    assert_eq!(err(additem(&mut ui, vec![s(&lb), num(1.0)])), "additem() expects a string or array for item(s)");
    match getitem(&ui, vec![s(&lb), num(2.0)]) {
        Ok(Value::String(t)) => assert_eq!(t, "b"),
        other => panic!("unexpected {:?}", other),
    }
    assert_eq!(err(getitem(&ui, vec![s(&lb), num(6.0)])), "Index out of bounds");
}

#[test]
fn items_copied_deeply() {
    let mut ui = Ui::new();
    let f = form(&mut ui);
    let inner = Value::Array(vec![num(1.5), Value::Bool(true)]);
    let lb = id_of(createlistbox(&mut ui, vec![f, Value::Array(vec![inner])], &decimals));
    match getitem(&ui, vec![s(&lb), num(0.0)]) {
        Ok(Value::Array(v)) => {
            assert_eq!(v.len(), 2);
            assert!(matches!(v[0], Value::Number(b) if f64::from_bits(b) == 1.5));
            assert!(matches!(v[1], Value::Bool(true)));
        }
        other => panic!("unexpected {:?}", other),
    }
    assert_eq!(ui.controls.get(&lb).unwrap().text, "[Number(1.5), Bool(true)]");
}

#[test]
fn number_items_show_their_decimal_text() {
    let mut ui = Ui::new();
    let f = form(&mut ui);
    let cb = id_of(createcombobox(&mut ui, vec![dup(&f), Value::Array(vec![num(3.0), num(2.5), Value::Bool(true), Value::Null])], &decimals));
    assert_eq!(ui.controls.get(&cb).unwrap().text, "3");
    set_selected_index(&mut ui, vec![s(&cb), num(1.0)], &decimals).unwrap();
    assert_eq!(ui.controls.get(&cb).unwrap().text, "2.5");
    set_selected_text(&mut ui, vec![s(&cb), s("3")], &decimals).unwrap();
    assert_eq!(number(get_selected_index(&ui, vec![s(&cb)])), 0.0);
    set_selected_text(&mut ui, vec![s(&cb), s("true")], &decimals).unwrap();
    assert_eq!(number(get_selected_index(&ui, vec![s(&cb)])), 2.0);
    set_selected_text(&mut ui, vec![s(&cb), s("null")], &decimals).unwrap();
    assert_eq!(number(get_selected_index(&ui, vec![s(&cb)])), 3.0);
    let lb = id_of(createlistbox(&mut ui, vec![f, Value::Array(vec![num(-0.5)])], &decimals));
    assert_eq!(ui.controls.get(&lb).unwrap().text, "-0.5");
}
