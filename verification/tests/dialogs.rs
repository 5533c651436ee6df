use easybite::dialogs::{folder_request, open_file_request, picked_many, picked_one, save_file_request, set_dialog_filters};
use easybite::ui::Ui;
use easybite::value::Value;
use easybite::widgets::{get_dialog_filters, set_dialog_multiselect, set_dialog_title};

/// How a number reads: its `f64` `Display` text and its `Debug` text.
fn decimals(b: u64) -> (String, String) {
    let x = f64::from_bits(b);
    (x.to_string(), format!("{:?}", x))
}

fn num(x: f64) -> Value {
    Value::Number(x.to_bits())
}

fn s(t: &str) -> Value {
    Value::String(t.to_string())
}

fn pair(name: &str, exts: Vec<Value>) -> Value {
    Value::Array(vec![s(name), Value::Array(exts)])
}

fn err<T: std::fmt::Debug>(r: Result<T, String>) -> String {
    match r {
        Err(e) => e,
        Ok(v) => panic!("expected an error, got {:?}", v),
    }
}

#[test]
fn filters_are_set_strictly() {
    let mut ui = Ui::new();
    set_dialog_filters(&mut ui, vec![Value::Array(vec![pair("Images", vec![s("png"), s("jpg")]), pair("Any", vec![num(1.0)])])], &decimals)
        .unwrap();
    let fs = ui.dialog_options.filters.clone().unwrap();
    assert_eq!(fs.len(), 2);
    assert_eq!(fs[0], ("Images".to_string(), vec!["png".to_string(), "jpg".to_string()]));
    assert_eq!(fs[1].0, "Any");
    assert_eq!(fs[1].1.len(), 1);
    assert!(matches!(get_dialog_filters(&ui, vec![]), Ok(Value::Array(items)) if items.len() == 2));
    assert_eq!(err(set_dialog_filters(&mut ui, vec![], &decimals)), "set_dialog_filters() expects 1 argument (filters), got 0");
    assert_eq!(err(set_dialog_filters(&mut ui, vec![s("x")], &decimals)), "set_dialog_filters() expects an array of filter pairs");
    assert_eq!(
        err(set_dialog_filters(&mut ui, vec![Value::Array(vec![s("x")])], &decimals)),
        "Filters must be an array of [name, extensions] pairs"
    );
    assert_eq!(
        err(set_dialog_filters(&mut ui, vec![Value::Array(vec![Value::Array(vec![s("x")])])], &decimals)),
        "Each filter must be a pair [name, extensions]"
    );
    assert_eq!(
        err(set_dialog_filters(&mut ui, vec![Value::Array(vec![pair("ok", vec![]), Value::Array(vec![num(1.0), num(2.0)])])], &decimals)),
        "Each filter pair must be [string, array of strings]"
    );
    assert_eq!(ui.dialog_options.filters.as_ref().unwrap().len(), 2);
}

#[test]
fn dialog_options_from_calls() {
    let mut ui = Ui::new();
    set_dialog_title(&mut ui, vec![s("Pick")]).unwrap();
    set_dialog_multiselect(&mut ui, vec![Value::Bool(true)]).unwrap();
    let o = open_file_request(&ui, &vec![], &decimals).unwrap();
    assert_eq!(o.title.as_deref(), Some("Pick"));
    assert!(o.multiselect);
    let o = open_file_request(&ui, &vec![s("Open"), Value::Bool(false), s("/tmp"), Value::Array(vec![pair("Text", vec![s("txt")]), s("junk")])], &decimals)
        .unwrap();
    assert_eq!(o.title.as_deref(), Some("Open"));
    assert!(!o.multiselect);
    assert_eq!(o.startingpath.as_deref(), Some("/tmp"));
    assert_eq!(o.filters.unwrap(), vec![("Text".to_string(), vec!["txt".to_string()])]);
    let o = save_file_request(&ui, &vec![num(1.0), Value::Bool(false)], &decimals).unwrap();
    assert_eq!(o.title.as_deref(), Some("Pick"));
    assert!(o.multiselect);
    let o = folder_request(&ui, &vec![s("Folder")], &decimals).unwrap();
    assert_eq!(o.title.as_deref(), Some("Folder"));
    assert_eq!(
        err(folder_request(&ui, &vec![s("a"), s("b"), s("c"), s("d"), s("e")], &decimals)),
        "folder_dialog() expects 0-4 arguments (title, multiselect, startingpath, filters), got 5"
    );
    assert!(matches!(picked_one(Some("/a".to_string()), "No file selected"), Ok(Value::String(p)) if p == "/a"));
    assert_eq!(err(picked_one(None, "No file selected")), "No file selected");
    assert!(matches!(picked_many(Some(vec!["/a".to_string(), "/b".to_string()]), "x"), Ok(Value::Array(v)) if v.len() == 2));
    assert_eq!(err(picked_many(None, "No folder(s) selected")), "No folder(s) selected");
}
