use easybite::messages::{
    answer_message_box, answers, drop_finished_message_box, get_message_box_response, show_message_box, MsgBox,
};
use easybite::plotting::{
    mpl_area, mpl_bar, mpl_boxplot, mpl_bubble, mpl_candlestick, mpl_clear, mpl_contour, mpl_errorbar, mpl_figure,
    mpl_grid, mpl_heatmap, mpl_hist, mpl_legend, mpl_pie, mpl_plot, mpl_polar, mpl_quiver, mpl_radar, mpl_scatter,
    mpl_stackedbar, mpl_stem, mpl_step, mpl_subplots, mpl_title, mpl_violin, mpl_waterfall, mpl_xlabel, mpl_ylabel,
    PlotCommand, Plotter,
};
use easybite::ui::{MsgBoxButtons, MsgBoxIcon, Ui};
use easybite::value::Value;

fn num(x: f64) -> Value {
    Value::Number(x.to_bits())
}

fn s(t: &str) -> Value {
    Value::String(t.to_string())
}

fn nums(xs: &[f64]) -> Value {
    Value::Array(xs.iter().map(|x| num(*x)).collect())
}

fn texts(xs: &[&str]) -> Value {
    Value::Array(xs.iter().map(|x| s(x)).collect())
}

fn bits(xs: &[f64]) -> Vec<u64> {
    xs.iter().map(|x| x.to_bits()).collect()
}

fn err(r: Result<Value, String>) -> String {
    match r {
        Err(e) => e,
        Ok(v) => panic!("expected an error, got {:?}", v),
    }
}

fn figure(p: &mut Plotter) {
    mpl_figure(p, vec![]).unwrap();
}

fn last(p: &Plotter) -> &PlotCommand {
    p.current.as_ref().unwrap().commands.last().unwrap()
}

#[test]
fn figure_made_and_cleared() {
    let mut p = Plotter::new();
    assert_eq!(err(mpl_title(&mut p, vec![s("T")])), "No active figure. Call mpl_figure() first.");
    assert!(matches!(mpl_figure(&mut p, vec![]), Ok(Value::Figure(0))));
    {
        let f = p.current.as_ref().unwrap();
        assert_eq!((f.width, f.height), (800, 600));
        assert!(f.commands.is_empty() && !f.legend && !f.grid && f.subplots.is_none());
    }
    assert!(matches!(mpl_figure(&mut p, vec![num(640.7), num(-3.0)]), Ok(Value::Figure(1))));
    assert_eq!((p.current.as_ref().unwrap().width, p.current.as_ref().unwrap().height), (640, 0));
    assert_eq!(err(mpl_figure(&mut p, vec![num(1.0)])), "mpl_figure() expects 0 or 2 arguments, got 1");
    assert_eq!(err(mpl_figure(&mut p, vec![s("a"), num(1.0)])), "mpl_figure() expects a number for width");
    assert_eq!(err(mpl_figure(&mut p, vec![num(1.0), s("b")])), "mpl_figure() expects a number for height");
    mpl_title(&mut p, vec![s("Sales")]).unwrap();
    mpl_xlabel(&mut p, vec![s("Month")]).unwrap();
    mpl_ylabel(&mut p, vec![s("Units")]).unwrap();
    mpl_legend(&mut p, vec![]).unwrap();
    mpl_grid(&mut p, vec![Value::Bool(false)]).unwrap();
    mpl_subplots(&mut p, vec![num(2.0), num(3.9)]).unwrap();
    {
        let f = p.current.as_ref().unwrap();
        assert_eq!(f.title.as_deref(), Some("Sales"));
        assert_eq!(f.xlabel.as_deref(), Some("Month"));
        assert_eq!(f.ylabel.as_deref(), Some("Units"));
        assert!(f.legend && !f.grid);
        assert_eq!(f.subplots, Some((2, 3)));
    }
    assert_eq!(err(mpl_title(&mut p, vec![num(1.0)])), "mpl_title(): Expected a string");
    assert_eq!(err(mpl_legend(&mut p, vec![s("yes")])), "mpl_legend() expects a boolean");
    assert_eq!(err(mpl_grid(&mut p, vec![Value::Bool(true), Value::Bool(true)])), "mpl_grid() expects 0 or 1 arguments, got 2");
    assert_eq!(err(mpl_subplots(&mut p, vec![s("2"), num(1.0)])), "mpl_subplots() expects a number for rows");
    assert_eq!(err(mpl_clear(&mut p, vec![num(1.0)])), "mpl_clear() expects 0 arguments, got 1");
    mpl_clear(&mut p, vec![]).unwrap();
    assert!(p.current.is_none());
    assert_eq!(err(mpl_plot(&mut p, vec![nums(&[1.0]), nums(&[2.0])])), "No active figure. Call mpl_figure() first.");
}

#[test]
fn series_commands_are_added_in_order() {
    let mut p = Plotter::new();
    figure(&mut p);
    mpl_plot(&mut p, vec![nums(&[1.0, 2.0]), nums(&[3.0, 4.0])]).unwrap();
    match last(&p) {
        PlotCommand::Line { x, y, color } => {
            assert_eq!((x.clone(), y.clone()), (bits(&[1.0, 2.0]), bits(&[3.0, 4.0])));
            assert_eq!(color, "blue");
        },
        _ => panic!("expected a line"),
    }
    mpl_scatter(&mut p, vec![nums(&[1.0]), nums(&[2.0]), s("green")]).unwrap();
    assert!(matches!(last(&p), PlotCommand::Scatter { color, .. } if color == "green"));
    mpl_area(&mut p, vec![nums(&[1.0]), nums(&[2.0])]).unwrap();
    assert!(matches!(last(&p), PlotCommand::Area { color, .. } if color == "blue"));
    mpl_step(&mut p, vec![nums(&[1.0]), nums(&[2.0])]).unwrap();
    assert!(matches!(last(&p), PlotCommand::Step { .. }));
    mpl_polar(&mut p, vec![nums(&[0.0, 90.0]), nums(&[1.0, 2.0])]).unwrap();
    assert!(matches!(last(&p), PlotCommand::PolarChart { .. }));
    assert_eq!(p.current.as_ref().unwrap().commands.len(), 5);
    assert_eq!(err(mpl_plot(&mut p, vec![nums(&[1.0])])), "mpl_plot() expects 2 or 3 arguments, got 1");
    assert_eq!(err(mpl_plot(&mut p, vec![num(1.0), nums(&[1.0])])), "mpl_plot() x values: Expected an array");
    assert_eq!(
        err(mpl_plot(&mut p, vec![nums(&[1.0]), Value::Array(vec![s("a")])])),
        "mpl_plot() y values: Expected number in array"
    );
    assert_eq!(
        err(mpl_plot(&mut p, vec![nums(&[1.0]), nums(&[1.0, 2.0])])),
        "mpl_plot() expects x and y arrays of equal length"
    );
    assert_eq!(err(mpl_plot(&mut p, vec![nums(&[1.0]), nums(&[1.0]), num(3.0)])), "mpl_plot() color: Expected a string");
    assert_eq!(
        err(mpl_polar(&mut p, vec![nums(&[1.0]), nums(&[])])),
        "mpl_polar() expects theta and r arrays of equal length"
    );
    assert_eq!(p.current.as_ref().unwrap().commands.len(), 5);
}

#[test]
fn charts_with_labels_and_defaults() {
    let mut p = Plotter::new();
    figure(&mut p);
    mpl_hist(&mut p, vec![nums(&[1.0, 2.0, 2.0])]).unwrap();
    assert!(matches!(last(&p), PlotCommand::Histogram { bins: 10, color, .. } if color == "green"));
    mpl_hist(&mut p, vec![nums(&[1.0]), num(4.6), s("red")]).unwrap();
    assert!(matches!(last(&p), PlotCommand::Histogram { bins: 4, color, .. } if color == "red"));
    assert_eq!(err(mpl_hist(&mut p, vec![nums(&[1.0]), s("4")])), "mpl_hist() bins must be a number");
    mpl_bar(&mut p, vec![texts(&["a", "b"]), nums(&[1.0, 2.0])]).unwrap();
    assert!(matches!(last(&p), PlotCommand::Bar { categories, .. } if categories == &vec!["a".to_string(), "b".to_string()]));
    assert_eq!(
        err(mpl_bar(&mut p, vec![texts(&["a"]), nums(&[1.0, 2.0])])),
        "mpl_bar() expects categories and values arrays of equal length"
    );
    assert_eq!(err(mpl_bar(&mut p, vec![Value::Array(vec![num(1.0)]), nums(&[1.0])])), "mpl_bar() categories: Expected string in array");
    mpl_waterfall(&mut p, vec![texts(&["q1"]), nums(&[5.0])]).unwrap();
    assert!(matches!(last(&p), PlotCommand::WaterfallChart { .. }));
    mpl_pie(&mut p, vec![texts(&["a", "b", "c", "d", "e", "f", "g"]), nums(&[1.0; 7])]).unwrap();
    match last(&p) {
        PlotCommand::Pie { colors, .. } => assert_eq!(
            colors,
            &vec!["red", "blue", "green", "yellow", "purple", "orange", "red"]
                .into_iter()
                .map(String::from)
                .collect::<Vec<_>>()
        ),
        _ => panic!("expected a pie"),
    }
    mpl_pie(&mut p, vec![texts(&["a"]), nums(&[1.0]), texts(&["black"])]).unwrap();
    assert!(matches!(last(&p), PlotCommand::Pie { colors, .. } if colors == &vec!["black".to_string()]));
    mpl_stackedbar(&mut p, vec![texts(&["a", "b"]), Value::Array(vec![nums(&[1.0]), nums(&[2.0, 3.0])])]).unwrap();
    assert!(matches!(last(&p), PlotCommand::StackedBar { colors, values, .. } if colors.len() == 2 && values[1] == bits(&[2.0, 3.0])));
    assert_eq!(
        err(mpl_stackedbar(&mut p, vec![texts(&["a"]), Value::Array(vec![])])),
        "mpl_stackedbar() expects the number of rows in values to match the number of categories"
    );
    mpl_radar(&mut p, vec![texts(&["speed"]), Value::Array(vec![nums(&[1.0])])]).unwrap();
    assert!(matches!(last(&p), PlotCommand::RadarChart { color, .. } if color == "blue"));
}

#[test]
fn matrices_ranges_and_many_series() {
    let mut p = Plotter::new();
    figure(&mut p);
    mpl_boxplot(&mut p, vec![Value::Array(vec![nums(&[1.0, 2.0]), nums(&[3.0])])]).unwrap();
    assert!(matches!(last(&p), PlotCommand::BoxPlot { labels: None, color, .. } if color == "purple"));
    mpl_violin(&mut p, vec![Value::Array(vec![nums(&[1.0])]), texts(&["x"])]).unwrap();
    assert!(matches!(last(&p), PlotCommand::Violin { labels: Some(l), color, .. } if l.len() == 1 && color == "blue"));
    assert_eq!(
        err(mpl_boxplot(&mut p, vec![Value::Array(vec![nums(&[1.0]), num(2.0)])])),
        "mpl_boxplot() data: Expected an array"
    );
    assert_eq!(err(mpl_boxplot(&mut p, vec![num(2.0)])), "mpl_boxplot() data: Expected an array of arrays");
    mpl_heatmap(&mut p, vec![Value::Array(vec![nums(&[1.0, 2.0])])]).unwrap();
    assert!(matches!(last(&p), PlotCommand::Heatmap { .. }));
    mpl_contour(&mut p, vec![Value::Array(vec![nums(&[1.0])]), nums(&[0.0, 1.0]), nums(&[2.0, 3.0]), s("red")]).unwrap();
    assert!(matches!(last(&p), PlotCommand::Contour { x_range, .. } if *x_range == (0.0f64.to_bits(), 1.0f64.to_bits())));
    assert_eq!(
        err(mpl_contour(&mut p, vec![Value::Array(vec![]), nums(&[0.0]), nums(&[2.0, 3.0]), s("red")])),
        "mpl_contour() x_range: Expected an array of 2 numbers"
    );
    assert_eq!(
        err(mpl_contour(&mut p, vec![Value::Array(vec![]), nums(&[0.0, 1.0]), texts(&["a", "b"]), s("red")])),
        "mpl_contour() y_range: Expected number for range"
    );
    mpl_errorbar(&mut p, vec![nums(&[1.0]), nums(&[2.0]), nums(&[0.5])]).unwrap();
    assert!(matches!(last(&p), PlotCommand::ErrorBar { color, .. } if color == "black"));
    assert_eq!(
        err(mpl_errorbar(&mut p, vec![nums(&[1.0]), nums(&[2.0]), nums(&[])])),
        "mpl_errorbar() expects x, y, and yerr arrays of equal length"
    );
    mpl_quiver(&mut p, vec![nums(&[1.0]), nums(&[2.0]), nums(&[0.5]), nums(&[0.5])]).unwrap();
    assert!(matches!(last(&p), PlotCommand::Quiver { .. }));
    mpl_stem(&mut p, vec![nums(&[1.0]), nums(&[2.0]), s("red")]).unwrap();
    assert!(matches!(last(&p), PlotCommand::StemPlot { marker_color, line_color, .. } if marker_color == "red" && line_color == "blue"));
    mpl_bubble(&mut p, vec![nums(&[1.0]), nums(&[2.0]), nums(&[3.0])]).unwrap();
    assert!(matches!(last(&p), PlotCommand::BubbleChart { .. }));
    mpl_candlestick(&mut p, vec![texts(&["d1"]), nums(&[1.0]), nums(&[2.0]), nums(&[0.5]), nums(&[1.5])]).unwrap();
    assert!(matches!(last(&p), PlotCommand::Candlestick { color_up, color_down, .. } if color_up == "green" && color_down == "red"));
    assert_eq!(
        err(mpl_candlestick(&mut p, vec![texts(&["d1"]), nums(&[1.0]), nums(&[2.0]), nums(&[0.5]), nums(&[])])),
        "mpl_candlestick() expects all arrays to be of equal length"
    );
    assert_eq!(p.current.as_ref().unwrap().commands.len(), 9);
}

#[test]
fn message_box_answered_and_read() {
    let mut ui = Ui::new();
    let id = match show_message_box(&mut ui, vec![s("Save?"), s("Editor"), s("YesNo"), s("WARNING")]) {
        Ok(Value::String(id)) => id,
        other => panic!("expected an identifier, got {:?}", other),
    };
    {
        let b: &MsgBox = ui.msgboxes.get(&id).unwrap();
        assert_eq!(b.message, "Save?");
        assert_eq!(b.title.as_deref(), Some("Editor"));
        assert_eq!(b.buttons, MsgBoxButtons::YesNo);
        assert_eq!(b.icon, MsgBoxIcon::Warning);
        assert!(b.is_open && b.response.is_none());
        assert_eq!(answers(b.buttons), vec!["Yes".to_string(), "No".to_string()]);
    }
    assert!(matches!(get_message_box_response(&mut ui, vec![s(&id)]), Ok(None)));
    assert!(!drop_finished_message_box(&mut ui, &id));
    assert!(answer_message_box(&mut ui, &id, "No".to_string()));
    assert!(!ui.msgboxes.get(&id).unwrap().is_open);
    assert!(matches!(get_message_box_response(&mut ui, vec![s(&id)]), Ok(Some(Value::String(a))) if a == "No"));
    assert!(ui.msgboxes.get(&id).unwrap().response_retrieved);
    assert!(drop_finished_message_box(&mut ui, &id));
    assert!(ui.msgboxes.get(&id).is_none());
    assert!(matches!(get_message_box_response(&mut ui, vec![s(&id)]), Err(e) if e == "Message box not found"));
    let plain = match show_message_box(&mut ui, vec![s("Hi"), num(1.0), s("maybe")]) {
        Ok(Value::String(id)) => id,
        other => panic!("expected an identifier, got {:?}", other),
    };
    let b = ui.msgboxes.get(&plain).unwrap();
    assert!(b.title.is_none() && b.buttons == MsgBoxButtons::OkOnly && b.icon == MsgBoxIcon::NoIcon);
    assert!(matches!(show_message_box(&mut ui, vec![]), Err(e) if e == "show_message_box() expects 1-4 arguments (message, [title, buttons, icon]), got 0"));
    assert!(matches!(show_message_box(&mut ui, vec![num(1.0)]), Err(e) if e == "show_message_box() expects a string for message"));
    assert!(matches!(get_message_box_response(&mut ui, vec![num(1.0)]), Err(e) if e == "get_message_box_response() expects a message box identifier (string)"));
}
