//! Plotting: the current figure that the plotting calls fill, and the drawing
//! commands they add to it. Numbers stay as the language holds them (binary64
//! bit patterns); drawing a figure is the window's work.

use vstd::prelude::*;
use crate::number::{number_to_u64, number_to_usize, saturating_u64, saturating_usize};
use crate::text::{arity_error, arity_message, fails_with, text};
use crate::value::Value;

verus! {

/// A drawing command of a figure.
#[allow(inconsistent_fields)]
pub enum PlotCommand {
    Line { x: Vec<u64>, y: Vec<u64>, color: String },
    Scatter { x: Vec<u64>, y: Vec<u64>, color: String },
    Histogram { data: Vec<u64>, bins: usize, color: String },
    Bar { categories: Vec<String>, values: Vec<u64>, color: String },
    Pie { labels: Vec<String>, data: Vec<u64>, colors: Vec<String> },
    BoxPlot { data: Vec<Vec<u64>>, labels: Option<Vec<String>>, color: String },
    ErrorBar { x: Vec<u64>, y: Vec<u64>, yerr: Vec<u64>, color: String },
    Heatmap { data: Vec<Vec<u64>>, color: String },
    Contour { data: Vec<Vec<u64>>, x_range: (u64, u64), y_range: (u64, u64), color: String },
    Quiver { x: Vec<u64>, y: Vec<u64>, u: Vec<u64>, v: Vec<u64>, color: String },
    Area { x: Vec<u64>, y: Vec<u64>, color: String },
    Step { x: Vec<u64>, y: Vec<u64>, color: String },
    Violin { data: Vec<Vec<u64>>, labels: Option<Vec<String>>, color: String },
    StemPlot { x: Vec<u64>, y: Vec<u64>, marker_color: String, line_color: String },
    BubbleChart { x: Vec<u64>, y: Vec<u64>, sizes: Vec<u64>, color: String },
    StackedBar { categories: Vec<String>, values: Vec<Vec<u64>>, colors: Vec<String> },
    PolarChart { theta: Vec<u64>, r: Vec<u64>, color: String },
    Candlestick {
        timestamps: Vec<String>,
        open: Vec<u64>,
        high: Vec<u64>,
        low: Vec<u64>,
        close: Vec<u64>,
        color_up: String,
        color_down: String,
    },
    RadarChart { labels: Vec<String>, data: Vec<Vec<u64>>, color: String },
    WaterfallChart { x_labels: Vec<String>, values: Vec<u64>, color: String },
}

/// A figure: its size in pixels, its commands in order, its texts and
/// switches, and the grid of subplots it is split into, if any.
pub struct Figure {
    pub width: u32,
    pub height: u32,
    pub commands: Vec<PlotCommand>,
    pub title: Option<String>,
    pub xlabel: Option<String>,
    pub ylabel: Option<String>,
    pub legend: bool,
    pub grid: bool,
    pub subplots: Option<(usize, usize)>,
}

/// The plotting state: the current figure, if any, and how many figures were
/// made (the number the next one gets, round after `u64::MAX`).
pub struct Plotter {
    pub current: Option<Figure>,
    pub made: u64,
}

impl Plotter {
    /// No figure yet.
    pub fn new() -> (p: Plotter)
        ensures
            p.current is None,
            p.made == 0,
    {
        Plotter { current: None, made: 0 }
    }
}

/// The error of a call when there is no current figure.
pub open spec fn no_figure() -> Seq<char> {
    "No active figure. Call mpl_figure() first."@
}

/// `x as u32` for a number: NaN and negative numbers give 0, numbers beyond
/// the range `u32::MAX`, the others their whole part.
pub open spec fn saturating_u32(b: u64) -> nat {
    if saturating_u64(b) > u32::MAX {
        u32::MAX as nat
    } else {
        saturating_u64(b)
    }
}

fn number_to_u32(b: u64) -> (r: u32)
    ensures
        r as nat == saturating_u32(b),
{
    let w = number_to_u64(b);
    if w > u32::MAX as u64 {
        u32::MAX
    } else {
        w as u32
    }
}

fn joined(a: &str, b: &str) -> (s: String)
    ensures
        s@ == a@ + b@,
{
    let mut s = text(a);
    s.append(b);
    s
}

/// The current figure changed as `ok` says, with `Ok(Null)`; or the error
/// when there is none.
pub open spec fn figure_set(before: Plotter, after: Plotter, r: Result<Value, String>, ok: spec_fn(Figure, Figure) -> bool) -> bool {
    match before.current {
        None => fails_with(r, no_figure()) && after == before,
        Some(f) => {
            &&& r == Ok::<Value, String>(Value::Null)
            &&& after.current matches Some(g) && ok(f, g)
            &&& after.made == before.made
        },
    }
}

/// The current figure has one more command, last, of which `is_cmd` holds.
pub open spec fn added(before: Plotter, after: Plotter, r: Result<Value, String>, is_cmd: spec_fn(PlotCommand) -> bool) -> bool {
    figure_set(before, after, r, |f: Figure, g: Figure| {
        &&& g == (Figure { commands: g.commands, ..f })
        &&& g.commands@.len() == f.commands@.len() + 1
        &&& g.commands@.drop_last() == f.commands@
        &&& is_cmd(g.commands@.last())
    })
}

fn push_command(plot: &mut Plotter, c: PlotCommand) -> (r: Result<Value, String>)
    ensures
        match old(plot).current {
            None => fails_with(r, no_figure()) && *final(plot) == *old(plot),
            Some(f) => {
                &&& r == Ok::<Value, String>(Value::Null)
                &&& final(plot).current matches Some(g)
                    && g == (Figure { commands: g.commands, ..f })
                    && g.commands@.len() == f.commands@.len() + 1
                    && g.commands@.drop_last() == f.commands@
                    && g.commands@.last() == c
                &&& final(plot).made == old(plot).made
            },
        },
{
    match plot.current.take() {
        Some(mut f) => {
            let ghost start = f.commands@;
            f.commands.push(c);
            proof {
                assert(f.commands@.drop_last() =~= start);
            }
            plot.current = Some(f);
            Ok(Value::Null)
        },
        None => Err(text("No active figure. Call mpl_figure() first.")),
    }
}

/// `mpl_figure([width, height])`: a new, empty current figure, 800 by 600
/// unless told otherwise; the value that stands for it carries its number.
pub fn mpl_figure(plot: &mut Plotter, args: Vec<Value>) -> (r: Result<Value, String>)
    ensures
        args.len() != 0 && args.len() != 2 ==> fails_with(r, arity_message("mpl_figure"@, "0 or 2 arguments"@, args.len() as nat))
            && *final(plot) == *old(plot),
        args.len() == 2 && !(args@[0] is Number) ==> fails_with(r, "mpl_figure() expects a number for width"@)
            && *final(plot) == *old(plot),
        args.len() == 2 && args@[0] is Number && !(args@[1] is Number) ==> fails_with(r,
            "mpl_figure() expects a number for height"@) && *final(plot) == *old(plot),
        args.len() == 0 || (args.len() == 2 && args@[0] is Number && args@[1] is Number) ==> {
            let (w, h) = if args.len() == 0 {
                (800nat, 600nat)
            } else {
                (saturating_u32(args@[0]->Number_0), saturating_u32(args@[1]->Number_0))
            };
            &&& r == Ok::<Value, String>(Value::Figure(old(plot).made))
            &&& final(plot).made == old(plot).made.wrapping_add(1)
            &&& final(plot).current matches Some(f) && f.width == w && f.height == h && f.commands@.len() == 0
                && f.title is None && f.xlabel is None && f.ylabel is None && !f.legend && !f.grid && f.subplots is None
        },
{
    let (width, height) = if args.len() == 0 {
        (800u32, 600u32)
    } else if args.len() == 2 {
        let w = match &args[0] {
            Value::Number(n) => number_to_u32(*n),
            _ => return Err(text("mpl_figure() expects a number for width")),
        };
        let h = match &args[1] {
            Value::Number(n) => number_to_u32(*n),
            _ => return Err(text("mpl_figure() expects a number for height")),
        };
        (w, h)
    } else {
        return Err(arity_error("mpl_figure", "0 or 2 arguments", args.len()));
    };
    plot.current = Some(Figure {
        width,
        height,
        commands: Vec::new(),
        title: None,
        xlabel: None,
        ylabel: None,
        legend: false,
        grid: false,
        subplots: None,
    });
    let n = plot.made;
    plot.made = plot.made.wrapping_add(1);
    Ok(Value::Figure(n))
}

/// Which text of the figure a call sets.
#[derive(Clone, Copy, PartialEq, Eq, Structural)]
pub enum Label {
    Title,
    X,
    Y,
}

/// The figure with the text `l` set to `t`.
pub open spec fn labelled(f: Figure, g: Figure, l: Label, t: Seq<char>) -> bool {
    match l {
        Label::Title => g == (Figure { title: g.title, ..f }) && (g.title matches Some(s) && s@ == t),
        Label::X => g == (Figure { xlabel: g.xlabel, ..f }) && (g.xlabel matches Some(s) && s@ == t),
        Label::Y => g == (Figure { ylabel: g.ylabel, ..f }) && (g.ylabel matches Some(s) && s@ == t),
    }
}

/// What a call that sets a text of the figure does.
pub open spec fn label_set(before: Plotter, after: Plotter, args: Seq<Value>, name: Seq<char>, l: Label, r: Result<Value, String>) -> bool {
    if args.len() != 1 {
        fails_with(r, arity_message(name, "1 argument"@, args.len())) && after == before
    } else {
        match args[0] {
            Value::String(t) => figure_set(before, after, r, |f: Figure, g: Figure| labelled(f, g, l, t@)),
            _ => fails_with(r, name + "(): Expected a string"@) && after == before,
        }
    }
}

fn set_label(plot: &mut Plotter, args: Vec<Value>, name: &str, l: Label) -> (r: Result<Value, String>)
    ensures
        label_set(*old(plot), *final(plot), args@, name@, l, r),
{
    if args.len() != 1 {
        return Err(arity_error(name, "1 argument", args.len()));
    }
    let t = match &args[0] {
        Value::String(t) => t.clone(),
        _ => return Err(joined(name, "(): Expected a string")),
    };
    match plot.current.take() {
        Some(mut f) => {
            match l {
                Label::Title => f.title = Some(t),
                Label::X => f.xlabel = Some(t),
                Label::Y => f.ylabel = Some(t),
            }
            plot.current = Some(f);
            Ok(Value::Null)
        },
        None => Err(text("No active figure. Call mpl_figure() first.")),
    }
}

/// `mpl_title(text)`: the title of the current figure.
pub fn mpl_title(plot: &mut Plotter, args: Vec<Value>) -> (r: Result<Value, String>)
    ensures
        label_set(*old(plot), *final(plot), args@, "mpl_title"@, Label::Title, r),
{
    set_label(plot, args, "mpl_title", Label::Title)
}

/// `mpl_xlabel(text)`: the label of the x axis of the current figure.
pub fn mpl_xlabel(plot: &mut Plotter, args: Vec<Value>) -> (r: Result<Value, String>)
    ensures
        label_set(*old(plot), *final(plot), args@, "mpl_xlabel"@, Label::X, r),
{
    set_label(plot, args, "mpl_xlabel", Label::X)
}

/// `mpl_ylabel(text)`: the label of the y axis of the current figure.
pub fn mpl_ylabel(plot: &mut Plotter, args: Vec<Value>) -> (r: Result<Value, String>)
    ensures
        label_set(*old(plot), *final(plot), args@, "mpl_ylabel"@, Label::Y, r),
{
    set_label(plot, args, "mpl_ylabel", Label::Y)
}

/// What a call that switches the legend (`legend`) or the grid does: on
/// unless told otherwise.
pub open spec fn switch_set(before: Plotter, after: Plotter, args: Seq<Value>, name: Seq<char>, legend: bool, r: Result<Value, String>) -> bool {
    if args.len() > 1 {
        fails_with(r, arity_message(name, "0 or 1 arguments"@, args.len())) && after == before
    } else if args.len() == 1 && !(args[0] is Bool) {
        fails_with(r, name + "() expects a boolean"@) && after == before
    } else {
        let on = args.len() == 0 || args[0]->Bool_0;
        figure_set(before, after, r, |f: Figure, g: Figure|
            if legend { g == (Figure { legend: on, ..f }) } else { g == (Figure { grid: on, ..f }) })
    }
}

fn set_switch(plot: &mut Plotter, args: Vec<Value>, name: &str, legend: bool) -> (r: Result<Value, String>)
    ensures
        switch_set(*old(plot), *final(plot), args@, name@, legend, r),
{
    let on = if args.len() == 0 {
        true
    } else if args.len() == 1 {
        match &args[0] {
            Value::Bool(b) => *b,
            _ => return Err(joined(name, "() expects a boolean")),
        }
    } else {
        return Err(arity_error(name, "0 or 1 arguments", args.len()));
    };
    match plot.current.take() {
        Some(mut f) => {
            if legend {
                f.legend = on;
            } else {
                f.grid = on;
            }
            plot.current = Some(f);
            Ok(Value::Null)
        },
        None => Err(text("No active figure. Call mpl_figure() first.")),
    }
}

/// `mpl_legend([show])`: whether the current figure shows its legend.
pub fn mpl_legend(plot: &mut Plotter, args: Vec<Value>) -> (r: Result<Value, String>)
    ensures
        switch_set(*old(plot), *final(plot), args@, "mpl_legend"@, true, r),
{
    set_switch(plot, args, "mpl_legend", true)
}

/// `mpl_grid([on])`: whether the current figure shows a grid.
pub fn mpl_grid(plot: &mut Plotter, args: Vec<Value>) -> (r: Result<Value, String>)
    ensures
        switch_set(*old(plot), *final(plot), args@, "mpl_grid"@, false, r),
{
    set_switch(plot, args, "mpl_grid", false)
}

/// `mpl_clear()`: no current figure any more.
pub fn mpl_clear(plot: &mut Plotter, args: Vec<Value>) -> (r: Result<Value, String>)
    ensures
        args.len() != 0 ==> fails_with(r, arity_message("mpl_clear"@, "0 arguments"@, args.len() as nat))
            && *final(plot) == *old(plot),
        args.len() == 0 ==> r == Ok::<Value, String>(Value::Null) && final(plot).current is None
            && final(plot).made == old(plot).made,
{
    if args.len() != 0 {
        return Err(arity_error("mpl_clear", "0 arguments", args.len()));
    }
    plot.current = None;
    Ok(Value::Null)
}

/// `mpl_subplots(rows, columns)`: the current figure is split into a grid.
pub fn mpl_subplots(plot: &mut Plotter, args: Vec<Value>) -> (r: Result<Value, String>)
    ensures
        args.len() != 2 ==> fails_with(r, arity_message("mpl_subplots"@, "2 arguments"@, args.len() as nat))
            && *final(plot) == *old(plot),
        args.len() == 2 && !(args@[0] is Number) ==> fails_with(r, "mpl_subplots() expects a number for rows"@)
            && *final(plot) == *old(plot),
        args.len() == 2 && args@[0] is Number && !(args@[1] is Number) ==> fails_with(r,
            "mpl_subplots() expects a number for columns"@) && *final(plot) == *old(plot),
        args.len() == 2 && args@[0] is Number && args@[1] is Number ==> figure_set(*old(plot), *final(plot), r,
            |f: Figure, g: Figure| g == (Figure { subplots: g.subplots, ..f })
                && g.subplots == Some((saturating_usize(args@[0]->Number_0) as usize,
                    saturating_usize(args@[1]->Number_0) as usize))),
{
    if args.len() != 2 {
        return Err(arity_error("mpl_subplots", "2 arguments", args.len()));
    }
    let rows = match &args[0] {
        Value::Number(n) => number_to_usize(*n),
        _ => return Err(text("mpl_subplots() expects a number for rows")),
    };
    let cols = match &args[1] {
        Value::Number(n) => number_to_usize(*n),
        _ => return Err(text("mpl_subplots() expects a number for columns")),
    };
    match plot.current.take() {
        Some(mut f) => {
            f.subplots = Some((rows, cols));
            plot.current = Some(f);
            Ok(Value::Null)
        },
        None => Err(text("No active figure. Call mpl_figure() first.")),
    }
}

// ------------------------------------------------------------ reading arguments

/// The numbers of an array of numbers, or the error that names what is wrong.
pub open spec fn numbers_read(v: Value, ctx: Seq<char>) -> Result<Seq<u64>, Seq<char>> {
    match v {
        Value::Array(items) => if forall|i: int| 0 <= i < items@.len() ==> #[trigger] items@[i] is Number {
            Ok(Seq::new(items@.len(), |i: int| items@[i]->Number_0))
        } else {
            Err(ctx + ": Expected number in array"@)
        },
        _ => Err(ctx + ": Expected an array"@),
    }
}

fn read_numbers(v: &Value, ctx: &str) -> (r: Result<Vec<u64>, String>)
    ensures
        match numbers_read(*v, ctx@) {
            Ok(s) => r matches Ok(x) && x@ == s,
            Err(m) => fails_with(r, m),
        },
{
    match v {
        Value::Array(items) => {
            let mut out: Vec<u64> = Vec::new();
            let mut i: usize = 0;
            while i < items.len()
                invariant
                    *v == Value::Array(*items),
                    i <= items@.len(),
                    out@.len() == i,
                    forall|j: int| 0 <= j < i ==> #[trigger] items@[j] is Number && out@[j] == items@[j]->Number_0,
                decreases items.len() - i,
            {
                match &items[i] {
                    Value::Number(b) => out.push(*b),
                    _ => {
                        proof {
                            assert(!(items@[i as int] is Number));
                        }
                        return Err(joined(ctx, ": Expected number in array"));
                    },
                }
                i = i + 1;
            }
            proof {
                assert(out@ =~= Seq::new(items@.len(), |k: int| items@[k]->Number_0));
            }
            Ok(out)
        },
        _ => Err(joined(ctx, ": Expected an array")),
    }
}

/// The texts `v` holds are `s`, one for one.
pub open spec fn texts_are(v: Seq<String>, s: Seq<Seq<char>>) -> bool {
    v.len() == s.len() && forall|i: int| 0 <= i < v.len() ==> (#[trigger] v[i])@ == s[i]
}

/// The texts of an array of texts, or the error that names what is wrong.
pub open spec fn texts_read(v: Value, ctx: Seq<char>) -> Result<Seq<Seq<char>>, Seq<char>> {
    match v {
        Value::Array(items) => if forall|i: int| 0 <= i < items@.len() ==> #[trigger] items@[i] is String {
            Ok(Seq::new(items@.len(), |i: int| items@[i]->String_0@))
        } else {
            Err(ctx + ": Expected string in array"@)
        },
        _ => Err(ctx + ": Expected an array"@),
    }
}

fn read_texts(v: &Value, ctx: &str) -> (r: Result<Vec<String>, String>)
    ensures
        match texts_read(*v, ctx@) {
            Ok(s) => r matches Ok(x) && texts_are(x@, s),
            Err(m) => fails_with(r, m),
        },
{
    match v {
        Value::Array(items) => {
            let mut out: Vec<String> = Vec::new();
            let mut i: usize = 0;
            while i < items.len()
                invariant
                    *v == Value::Array(*items),
                    i <= items@.len(),
                    out@.len() == i,
                    forall|j: int| 0 <= j < i ==> #[trigger] items@[j] is String && out@[j]@ == items@[j]->String_0@,
                decreases items.len() - i,
            {
                match &items[i] {
                    Value::String(t) => out.push(t.clone()),
                    _ => {
                        proof {
                            assert(!(items@[i as int] is String));
                        }
                        return Err(joined(ctx, ": Expected string in array"));
                    },
                }
                i = i + 1;
            }
            Ok(out)
        },
        _ => Err(joined(ctx, ": Expected an array")),
    }
}

/// A text argument, or the error.
pub open spec fn text_read(v: Value, ctx: Seq<char>) -> Result<Seq<char>, Seq<char>> {
    match v {
        Value::String(t) => Ok(t@),
        _ => Err(ctx + ": Expected a string"@),
    }
}

fn read_text(v: &Value, ctx: &str) -> (r: Result<String, String>)
    ensures
        match text_read(*v, ctx@) {
            Ok(t) => r matches Ok(x) && x@ == t,
            Err(m) => fails_with(r, m),
        },
{
    match v {
        Value::String(t) => Ok(t.clone()),
        _ => Err(joined(ctx, ": Expected a string")),
    }
}

/// Optional text argument `i`: read when given, else `d`.
pub open spec fn opt_text_read(args: Seq<Value>, i: int, ctx: Seq<char>, d: Seq<char>) -> Result<Seq<char>, Seq<char>> {
    if i < args.len() {
        text_read(args[i], ctx)
    } else {
        Ok(d)
    }
}

fn read_opt_text(args: &Vec<Value>, i: usize, ctx: &str, d: &str) -> (r: Result<String, String>)
    ensures
        match opt_text_read(args@, i as int, ctx@, d@) {
            Ok(t) => r matches Ok(x) && x@ == t,
            Err(m) => fails_with(r, m),
        },
{
    if i < args.len() {
        read_text(&args[i], ctx)
    } else {
        Ok(text(d))
    }
}

/// The rows of numbers of a list of arrays: the first row that is not an
/// array of numbers gives the error.
pub open spec fn rows_read(rows: Seq<Value>, ctx: Seq<char>) -> Result<Seq<Seq<u64>>, Seq<char>>
    decreases rows.len(),
{
    if rows.len() == 0 {
        Ok(Seq::empty())
    } else {
        match rows_read(rows.drop_last(), ctx) {
            Err(m) => Err(m),
            Ok(p) => match numbers_read(rows.last(), ctx) {
                Err(m) => Err(m),
                Ok(q) => Ok(p.push(q)),
            },
        }
    }
}

/// An array of arrays of numbers, or the error.
pub open spec fn matrix_read(v: Value, ctx: Seq<char>) -> Result<Seq<Seq<u64>>, Seq<char>> {
    match v {
        Value::Array(rows) => rows_read(rows@, ctx),
        _ => Err(ctx + ": Expected an array of arrays"@),
    }
}

/// The rows `v` holds are `s`, one for one.
pub open spec fn rows_are(v: Seq<Vec<u64>>, s: Seq<Seq<u64>>) -> bool {
    v.len() == s.len() && forall|i: int| 0 <= i < v.len() ==> (#[trigger] v[i])@ == s[i]
}

proof fn lemma_rows_error_stays(rows: Seq<Value>, ctx: Seq<char>, k: int)
    requires
        0 <= k <= rows.len(),
        rows_read(rows.take(k), ctx) is Err,
    ensures
        rows_read(rows, ctx) == rows_read(rows.take(k), ctx),
    decreases rows.len() - k,
{
    if k == rows.len() {
        assert(rows.take(k) =~= rows);
    } else {
        assert(rows.take(k + 1).drop_last() =~= rows.take(k));
        lemma_rows_error_stays(rows, ctx, k + 1);
    }
}

fn read_matrix(v: &Value, ctx: &str) -> (r: Result<Vec<Vec<u64>>, String>)
    ensures
        match matrix_read(*v, ctx@) {
            Ok(s) => r matches Ok(x) && rows_are(x@, s),
            Err(m) => fails_with(r, m),
        },
{
    match v {
        Value::Array(rows) => {
            let mut out: Vec<Vec<u64>> = Vec::new();
            let mut i: usize = 0;
            while i < rows.len()
                invariant
                    *v == Value::Array(*rows),
                    i <= rows@.len(),
                    rows_read(rows@.take(i as int), ctx@) matches Ok(s) && rows_are(out@, s),
                decreases rows.len() - i,
            {
                proof {
                    assert(rows@.take(i + 1).drop_last() =~= rows@.take(i as int));
                    assert(rows@.take(i + 1).last() == rows@[i as int]);
                }
                match read_numbers(&rows[i], ctx) {
                    Ok(row) => out.push(row),
                    Err(e) => {
                        proof {
                            let t = rows@.take(i + 1);
                            assert(t.len() == i + 1);
                            assert(rows_read(t, ctx@) == Err::<Seq<Seq<u64>>, Seq<char>>(e@));
                            lemma_rows_error_stays(rows@, ctx@, i + 1);
                        }
                        return Err(e);
                    },
                }
                i = i + 1;
            }
            proof {
                assert(rows@.take(i as int) =~= rows@);
            }
            Ok(out)
        },
        _ => Err(joined(ctx, ": Expected an array of arrays")),
    }
}

/// A pair of numbers given as an array of two, or the error.
pub open spec fn range_read(v: Value, ctx: Seq<char>) -> Result<(u64, u64), Seq<char>> {
    match v {
        Value::Array(a) => if a@.len() != 2 {
            Err(ctx + ": Expected an array of 2 numbers"@)
        } else if a@[0] is Number && a@[1] is Number {
            Ok((a@[0]->Number_0, a@[1]->Number_0))
        } else {
            Err(ctx + ": Expected number for range"@)
        },
        _ => Err(ctx + ": Expected an array of 2 numbers"@),
    }
}

fn read_range(v: &Value, ctx: &str) -> (r: Result<(u64, u64), String>)
    ensures
        match range_read(*v, ctx@) {
            Ok(p) => r == Ok::<(u64, u64), String>(p),
            Err(m) => fails_with(r, m),
        },
{
    match v {
        Value::Array(a) => {
            if a.len() != 2 {
                return Err(joined(ctx, ": Expected an array of 2 numbers"));
            }
            let x = match &a[0] {
                Value::Number(n) => *n,
                _ => return Err(joined(ctx, ": Expected number for range")),
            };
            let y = match &a[1] {
                Value::Number(n) => *n,
                _ => return Err(joined(ctx, ": Expected number for range")),
            };
            Ok((x, y))
        },
        _ => Err(joined(ctx, ": Expected an array of 2 numbers")),
    }
}

/// The colour names that pies and stacked bars take in turn.
pub open spec fn cycle_color(i: int) -> Seq<char> {
    let k = i % 6;
    if k == 0 {
        "red"@
    } else if k == 1 {
        "blue"@
    } else if k == 2 {
        "green"@
    } else if k == 3 {
        "yellow"@
    } else if k == 4 {
        "purple"@
    } else {
        "orange"@
    }
}

/// `n` colour names, taken in turn.
pub open spec fn cycle_colors(n: nat) -> Seq<Seq<char>> {
    Seq::new(n, |i: int| cycle_color(i))
}

fn color_cycle(n: usize) -> (r: Vec<String>)
    ensures
        texts_are(r@, cycle_colors(n as nat)),
{
    let mut out: Vec<String> = Vec::new();
    let mut i: usize = 0;
    while i < n
        invariant
            i <= n,
            out@.len() == i,
            forall|j: int| 0 <= j < i ==> (#[trigger] out@[j])@ == cycle_color(j),
        decreases n - i,
    {
        let k = i % 6;
        let c = if k == 0 {
            text("red")
        } else if k == 1 {
            text("blue")
        } else if k == 2 {
            text("green")
        } else if k == 3 {
            text("yellow")
        } else if k == 4 {
            text("purple")
        } else {
            text("orange")
        };
        out.push(c);
        i = i + 1;
    }
    out
}

// ------------------------------------------------------------ drawing commands

/// Two series of equal length and a colour, as lines, scatters, areas, steps
/// and polar charts take them.
pub open spec fn xy_read(
    args: Seq<Value>,
    name: Seq<char>,
    xctx: Seq<char>,
    yctx: Seq<char>,
    unequal: Seq<char>,
    dflt: Seq<char>,
) -> Result<(Seq<u64>, Seq<u64>, Seq<char>), Seq<char>> {
    if args.len() < 2 || args.len() > 3 {
        Err(arity_message(name, "2 or 3 arguments"@, args.len()))
    } else {
        match (numbers_read(args[0], xctx), numbers_read(args[1], yctx)) {
            (Err(m), _) => Err(m),
            (Ok(_), Err(m)) => Err(m),
            (Ok(xs), Ok(ys)) => if xs.len() != ys.len() {
                Err(unequal)
            } else {
                match opt_text_read(args, 2, name + "() color"@, dflt) {
                    Err(m) => Err(m),
                    Ok(c) => Ok((xs, ys, c)),
                }
            },
        }
    }
}

fn read_xy(args: &Vec<Value>, name: &str, xctx: &str, yctx: &str, unequal: &str, dflt: &str)
    -> (r: Result<(Vec<u64>, Vec<u64>, String), String>)
    ensures
        match xy_read(args@, name@, xctx@, yctx@, unequal@, dflt@) {
            Ok((xs, ys, c)) => r matches Ok((x, y, col)) && x@ == xs && y@ == ys && col@ == c,
            Err(m) => fails_with(r, m),
        },
{
    if args.len() < 2 || args.len() > 3 {
        return Err(arity_error(name, "2 or 3 arguments", args.len()));
    }
    let x = read_numbers(&args[0], xctx)?;
    let y = read_numbers(&args[1], yctx)?;
    if x.len() != y.len() {
        return Err(text(unequal));
    }
    let ctx = joined(name, "() color");
    let c = read_opt_text(args, 2, ctx.as_str(), dflt)?;
    Ok((x, y, c))
}

/// What a call that adds a command read by `read` does: the error of the
/// reading, or the command added to the current figure.
pub open spec fn plotted<T>(
    before: Plotter,
    after: Plotter,
    r: Result<Value, String>,
    read: Result<T, Seq<char>>,
    is_cmd: spec_fn(T, PlotCommand) -> bool,
) -> bool {
    match read {
        Err(m) => fails_with(r, m) && after == before,
        Ok(t) => added(before, after, r, |c: PlotCommand| is_cmd(t, c)),
    }
}

/// `mpl_plot(x, y, [color])`: a line, blue unless told otherwise.
pub fn mpl_plot(plot: &mut Plotter, args: Vec<Value>) -> (r: Result<Value, String>)
    ensures
        plotted(*old(plot), *final(plot), r,
            xy_read(args@, "mpl_plot"@, "mpl_plot() x values"@, "mpl_plot() y values"@,
                "mpl_plot() expects x and y arrays of equal length"@, "blue"@),
            |t: (Seq<u64>, Seq<u64>, Seq<char>), c: PlotCommand|
                c matches PlotCommand::Line { x, y, color } && x@ == t.0 && y@ == t.1 && color@ == t.2),
{
    let (x, y, color) = read_xy(&args, "mpl_plot", "mpl_plot() x values", "mpl_plot() y values",
        "mpl_plot() expects x and y arrays of equal length", "blue")?;
    push_command(plot, PlotCommand::Line { x, y, color })
}

/// `mpl_scatter(x, y, [color])`: points, red unless told otherwise.
pub fn mpl_scatter(plot: &mut Plotter, args: Vec<Value>) -> (r: Result<Value, String>)
    ensures
        plotted(*old(plot), *final(plot), r,
            xy_read(args@, "mpl_scatter"@, "mpl_scatter() x values"@, "mpl_scatter() y values"@,
                "mpl_scatter() expects x and y arrays of equal length"@, "red"@),
            |t: (Seq<u64>, Seq<u64>, Seq<char>), c: PlotCommand|
                c matches PlotCommand::Scatter { x, y, color } && x@ == t.0 && y@ == t.1 && color@ == t.2),
{
    let (x, y, color) = read_xy(&args, "mpl_scatter", "mpl_scatter() x values", "mpl_scatter() y values",
        "mpl_scatter() expects x and y arrays of equal length", "red")?;
    push_command(plot, PlotCommand::Scatter { x, y, color })
}

/// `mpl_area(x, y, [color])`: a filled area, blue unless told otherwise.
pub fn mpl_area(plot: &mut Plotter, args: Vec<Value>) -> (r: Result<Value, String>)
    ensures
        plotted(*old(plot), *final(plot), r,
            xy_read(args@, "mpl_area"@, "mpl_area() x"@, "mpl_area() y"@,
                "mpl_area() expects x and y arrays of equal length"@, "blue"@),
            |t: (Seq<u64>, Seq<u64>, Seq<char>), c: PlotCommand|
                c matches PlotCommand::Area { x, y, color } && x@ == t.0 && y@ == t.1 && color@ == t.2),
{
    let (x, y, color) = read_xy(&args, "mpl_area", "mpl_area() x", "mpl_area() y",
        "mpl_area() expects x and y arrays of equal length", "blue")?;
    push_command(plot, PlotCommand::Area { x, y, color })
}

/// `mpl_step(x, y, [color])`: a step line, blue unless told otherwise.
pub fn mpl_step(plot: &mut Plotter, args: Vec<Value>) -> (r: Result<Value, String>)
    ensures
        plotted(*old(plot), *final(plot), r,
            xy_read(args@, "mpl_step"@, "mpl_step() x"@, "mpl_step() y"@,
                "mpl_step() expects x and y arrays of equal length"@, "blue"@),
            |t: (Seq<u64>, Seq<u64>, Seq<char>), c: PlotCommand|
                c matches PlotCommand::Step { x, y, color } && x@ == t.0 && y@ == t.1 && color@ == t.2),
{
    let (x, y, color) = read_xy(&args, "mpl_step", "mpl_step() x", "mpl_step() y",
        "mpl_step() expects x and y arrays of equal length", "blue")?;
    push_command(plot, PlotCommand::Step { x, y, color })
}

/// `mpl_polar(theta, r, [color])`: a polar chart, blue unless told otherwise.
pub fn mpl_polar(plot: &mut Plotter, args: Vec<Value>) -> (r: Result<Value, String>)
    ensures
        plotted(*old(plot), *final(plot), r,
            xy_read(args@, "mpl_polar"@, "mpl_polar() theta"@, "mpl_polar() r"@,
                "mpl_polar() expects theta and r arrays of equal length"@, "blue"@),
            |t: (Seq<u64>, Seq<u64>, Seq<char>), c: PlotCommand|
                c matches PlotCommand::PolarChart { theta, r, color } && theta@ == t.0 && r@ == t.1 && color@ == t.2),
{
    let (theta, radius, color) = read_xy(&args, "mpl_polar", "mpl_polar() theta", "mpl_polar() r",
        "mpl_polar() expects theta and r arrays of equal length", "blue")?;
    push_command(plot, PlotCommand::PolarChart { theta, r: radius, color })
}

/// `mpl_hist`'s data, bins (10 unless told) and colour.
pub open spec fn hist_read(args: Seq<Value>) -> Result<(Seq<u64>, usize, Seq<char>), Seq<char>> {
    if args.len() < 1 || args.len() > 3 {
        Err(arity_message("mpl_hist"@, "1 to 3 arguments"@, args.len()))
    } else {
        match numbers_read(args[0], "mpl_hist() data"@) {
            Err(m) => Err(m),
            Ok(d) => if args.len() >= 2 && !(args[1] is Number) {
                Err("mpl_hist() bins must be a number"@)
            } else {
                let bins = if args.len() >= 2 { saturating_usize(args[1]->Number_0) as usize } else { 10usize };
                match opt_text_read(args, 2, "mpl_hist() color"@, "green"@) {
                    Err(m) => Err(m),
                    Ok(c) => Ok((d, bins, c)),
                }
            },
        }
    }
}

/// `mpl_hist(data, [bins], [color])`: a histogram.
pub fn mpl_hist(plot: &mut Plotter, args: Vec<Value>) -> (r: Result<Value, String>)
    ensures
        plotted(*old(plot), *final(plot), r, hist_read(args@),
            |t: (Seq<u64>, usize, Seq<char>), c: PlotCommand|
                c matches PlotCommand::Histogram { data, bins, color } && data@ == t.0 && bins == t.1 && color@ == t.2),
{
    if args.len() < 1 || args.len() > 3 {
        return Err(arity_error("mpl_hist", "1 to 3 arguments", args.len()));
    }
    let data = read_numbers(&args[0], "mpl_hist() data")?;
    let bins = if args.len() >= 2 {
        match &args[1] {
            Value::Number(n) => number_to_usize(*n),
            _ => return Err(text("mpl_hist() bins must be a number")),
        }
    } else {
        10
    };
    let color = read_opt_text(&args, 2, "mpl_hist() color", "green")?;
    push_command(plot, PlotCommand::Histogram { data, bins, color })
}

/// Labels and values of equal length and a colour, as bars and waterfalls
/// take them.
pub open spec fn labeled_read(
    args: Seq<Value>,
    name: Seq<char>,
    lctx: Seq<char>,
    vctx: Seq<char>,
    unequal: Seq<char>,
) -> Result<(Seq<Seq<char>>, Seq<u64>, Seq<char>), Seq<char>> {
    if args.len() < 2 || args.len() > 3 {
        Err(arity_message(name, "2 or 3 arguments"@, args.len()))
    } else {
        match texts_read(args[0], lctx) {
            Err(m) => Err(m),
            Ok(ls) => match numbers_read(args[1], vctx) {
                Err(m) => Err(m),
                Ok(vs) => if ls.len() != vs.len() {
                    Err(unequal)
                } else {
                    match opt_text_read(args, 2, name + "() color"@, "blue"@) {
                        Err(m) => Err(m),
                        Ok(c) => Ok((ls, vs, c)),
                    }
                },
            },
        }
    }
}

fn read_labeled(args: &Vec<Value>, name: &str, lctx: &str, vctx: &str, unequal: &str)
    -> (r: Result<(Vec<String>, Vec<u64>, String), String>)
    ensures
        match labeled_read(args@, name@, lctx@, vctx@, unequal@) {
            Ok((ls, vs, c)) => r matches Ok((l, v, col)) && texts_are(l@, ls) && v@ == vs && col@ == c,
            Err(m) => fails_with(r, m),
        },
{
    if args.len() < 2 || args.len() > 3 {
        return Err(arity_error(name, "2 or 3 arguments", args.len()));
    }
    let l = read_texts(&args[0], lctx)?;
    let v = read_numbers(&args[1], vctx)?;
    if l.len() != v.len() {
        return Err(text(unequal));
    }
    let ctx = joined(name, "() color");
    let c = read_opt_text(args, 2, ctx.as_str(), "blue")?;
    Ok((l, v, c))
}

/// `mpl_bar(categories, values, [color])`: bars, blue unless told otherwise.
pub fn mpl_bar(plot: &mut Plotter, args: Vec<Value>) -> (r: Result<Value, String>)
    ensures
        plotted(*old(plot), *final(plot), r,
            labeled_read(args@, "mpl_bar"@, "mpl_bar() categories"@, "mpl_bar() values"@,
                "mpl_bar() expects categories and values arrays of equal length"@),
            |t: (Seq<Seq<char>>, Seq<u64>, Seq<char>), c: PlotCommand|
                c matches PlotCommand::Bar { categories, values, color } && texts_are(categories@, t.0)
                    && values@ == t.1 && color@ == t.2),
{
    let (categories, values, color) = read_labeled(&args, "mpl_bar", "mpl_bar() categories", "mpl_bar() values",
        "mpl_bar() expects categories and values arrays of equal length")?;
    push_command(plot, PlotCommand::Bar { categories, values, color })
}

/// `mpl_waterfall(labels, values, [color])`: a waterfall chart, blue unless
/// told otherwise.
pub fn mpl_waterfall(plot: &mut Plotter, args: Vec<Value>) -> (r: Result<Value, String>)
    ensures
        plotted(*old(plot), *final(plot), r,
            labeled_read(args@, "mpl_waterfall"@, "mpl_waterfall() x_labels"@, "mpl_waterfall() values"@,
                "mpl_waterfall() expects x_labels and values arrays of equal length"@),
            |t: (Seq<Seq<char>>, Seq<u64>, Seq<char>), c: PlotCommand|
                c matches PlotCommand::WaterfallChart { x_labels, values, color } && texts_are(x_labels@, t.0)
                    && values@ == t.1 && color@ == t.2),
{
    let (x_labels, values, color) = read_labeled(&args, "mpl_waterfall", "mpl_waterfall() x_labels",
        "mpl_waterfall() values", "mpl_waterfall() expects x_labels and values arrays of equal length")?;
    push_command(plot, PlotCommand::WaterfallChart { x_labels, values, color })
}

/// `mpl_pie`'s labels, data and colours (taken in turn unless given).
pub open spec fn pie_read(args: Seq<Value>) -> Result<(Seq<Seq<char>>, Seq<u64>, Seq<Seq<char>>), Seq<char>> {
    if args.len() < 2 || args.len() > 3 {
        Err(arity_message("mpl_pie"@, "2 or 3 arguments"@, args.len()))
    } else {
        match texts_read(args[0], "mpl_pie() labels"@) {
            Err(m) => Err(m),
            Ok(ls) => match numbers_read(args[1], "mpl_pie() data"@) {
                Err(m) => Err(m),
                Ok(d) => if ls.len() != d.len() {
                    Err("mpl_pie() expects labels and data arrays of equal length"@)
                } else if args.len() == 3 {
                    match texts_read(args[2], "mpl_pie() colors"@) {
                        Err(m) => Err(m),
                        Ok(cs) => Ok((ls, d, cs)),
                    }
                } else {
                    Ok((ls, d, cycle_colors(d.len())))
                },
            },
        }
    }
}

/// `mpl_pie(labels, data, [colors])`: a pie chart.
pub fn mpl_pie(plot: &mut Plotter, args: Vec<Value>) -> (r: Result<Value, String>)
    ensures
        plotted(*old(plot), *final(plot), r, pie_read(args@),
            |t: (Seq<Seq<char>>, Seq<u64>, Seq<Seq<char>>), c: PlotCommand|
                c matches PlotCommand::Pie { labels, data, colors } && texts_are(labels@, t.0) && data@ == t.1
                    && texts_are(colors@, t.2)),
{
    if args.len() < 2 || args.len() > 3 {
        return Err(arity_error("mpl_pie", "2 or 3 arguments", args.len()));
    }
    let labels = read_texts(&args[0], "mpl_pie() labels")?;
    let data = read_numbers(&args[1], "mpl_pie() data")?;
    if labels.len() != data.len() {
        return Err(text("mpl_pie() expects labels and data arrays of equal length"));
    }
    let colors = if args.len() == 3 {
        read_texts(&args[2], "mpl_pie() colors")?
    } else {
        color_cycle(data.len())
    };
    push_command(plot, PlotCommand::Pie { labels, data, colors })
}

/// Data sets, optional labels and a colour, as box plots and violins take
/// them.
pub open spec fn spread_read(args: Seq<Value>, name: Seq<char>, dflt: Seq<char>)
    -> Result<(Seq<Seq<u64>>, Option<Seq<Seq<char>>>, Seq<char>), Seq<char>> {
    if args.len() < 1 || args.len() > 3 {
        Err(arity_message(name, "1 to 3 arguments"@, args.len()))
    } else {
        match matrix_read(args[0], name + "() data"@) {
            Err(m) => Err(m),
            Ok(d) => {
                let labels = if args.len() >= 2 {
                    match texts_read(args[1], name + "() labels"@) {
                        Err(m) => Err(m),
                        Ok(ls) => Ok(Some(ls)),
                    }
                } else {
                    Ok(None)
                };
                match labels {
                    Err(m) => Err(m),
                    Ok(l) => match opt_text_read(args, 2, name + "() color"@, dflt) {
                        Err(m) => Err(m),
                        Ok(c) => Ok((d, l, c)),
                    },
                }
            },
        }
    }
}

/// The optional labels a command holds are `l`.
pub open spec fn opt_texts_are(v: Option<Vec<String>>, l: Option<Seq<Seq<char>>>) -> bool {
    match (v, l) {
        (Some(x), Some(y)) => texts_are(x@, y),
        (None, None) => true,
        _ => false,
    }
}

fn read_spread(args: &Vec<Value>, name: &str, dflt: &str)
    -> (r: Result<(Vec<Vec<u64>>, Option<Vec<String>>, String), String>)
    ensures
        match spread_read(args@, name@, dflt@) {
            Ok((d, l, c)) => r matches Ok((x, y, col)) && rows_are(x@, d) && opt_texts_are(y, l) && col@ == c,
            Err(m) => fails_with(r, m),
        },
{
    if args.len() < 1 || args.len() > 3 {
        return Err(arity_error(name, "1 to 3 arguments", args.len()));
    }
    let dctx = joined(name, "() data");
    let data = read_matrix(&args[0], dctx.as_str())?;
    let labels = if args.len() >= 2 {
        let lctx = joined(name, "() labels");
        Some(read_texts(&args[1], lctx.as_str())?)
    } else {
        None
    };
    let cctx = joined(name, "() color");
    let color = read_opt_text(args, 2, cctx.as_str(), dflt)?;
    Ok((data, labels, color))
}

/// `mpl_boxplot(data, [labels], [color])`: box plots, purple unless told
/// otherwise.
pub fn mpl_boxplot(plot: &mut Plotter, args: Vec<Value>) -> (r: Result<Value, String>)
    ensures
        plotted(*old(plot), *final(plot), r, spread_read(args@, "mpl_boxplot"@, "purple"@),
            |t: (Seq<Seq<u64>>, Option<Seq<Seq<char>>>, Seq<char>), c: PlotCommand|
                c matches PlotCommand::BoxPlot { data, labels, color } && rows_are(data@, t.0)
                    && opt_texts_are(labels, t.1) && color@ == t.2),
{
    let (data, labels, color) = read_spread(&args, "mpl_boxplot", "purple")?;
    push_command(plot, PlotCommand::BoxPlot { data, labels, color })
}

/// `mpl_violin(data, [labels], [color])`: violins, blue unless told otherwise.
pub fn mpl_violin(plot: &mut Plotter, args: Vec<Value>) -> (r: Result<Value, String>)
    ensures
        plotted(*old(plot), *final(plot), r, spread_read(args@, "mpl_violin"@, "blue"@),
            |t: (Seq<Seq<u64>>, Option<Seq<Seq<char>>>, Seq<char>), c: PlotCommand|
                c matches PlotCommand::Violin { data, labels, color } && rows_are(data@, t.0)
                    && opt_texts_are(labels, t.1) && color@ == t.2),
{
    let (data, labels, color) = read_spread(&args, "mpl_violin", "blue")?;
    push_command(plot, PlotCommand::Violin { data, labels, color })
}

/// `mpl_heatmap`'s data and colour.
pub open spec fn heatmap_read(args: Seq<Value>) -> Result<(Seq<Seq<u64>>, Seq<char>), Seq<char>> {
    if args.len() < 1 || args.len() > 2 {
        Err(arity_message("mpl_heatmap"@, "1 or 2 arguments"@, args.len()))
    } else {
        match matrix_read(args[0], "mpl_heatmap() data"@) {
            Err(m) => Err(m),
            Ok(d) => match opt_text_read(args, 1, "mpl_heatmap() color"@, "blue"@) {
                Err(m) => Err(m),
                Ok(c) => Ok((d, c)),
            },
        }
    }
}

/// `mpl_heatmap(data, [color])`: a heat map, blue unless told otherwise.
pub fn mpl_heatmap(plot: &mut Plotter, args: Vec<Value>) -> (r: Result<Value, String>)
    ensures
        plotted(*old(plot), *final(plot), r, heatmap_read(args@),
            |t: (Seq<Seq<u64>>, Seq<char>), c: PlotCommand|
                c matches PlotCommand::Heatmap { data, color } && rows_are(data@, t.0) && color@ == t.1),
{
    if args.len() < 1 || args.len() > 2 {
        return Err(arity_error("mpl_heatmap", "1 or 2 arguments", args.len()));
    }
    let data = read_matrix(&args[0], "mpl_heatmap() data")?;
    let color = read_opt_text(&args, 1, "mpl_heatmap() color", "blue")?;
    push_command(plot, PlotCommand::Heatmap { data, color })
}

/// `mpl_contour`'s data, ranges and colour.
pub open spec fn contour_read(args: Seq<Value>) -> Result<(Seq<Seq<u64>>, (u64, u64), (u64, u64), Seq<char>), Seq<char>> {
    if args.len() != 4 {
        Err(arity_message("mpl_contour"@, "4 arguments"@, args.len()))
    } else {
        match matrix_read(args[0], "mpl_contour() data"@) {
            Err(m) => Err(m),
            Ok(d) => match range_read(args[1], "mpl_contour() x_range"@) {
                Err(m) => Err(m),
                Ok(xr) => match range_read(args[2], "mpl_contour() y_range"@) {
                    Err(m) => Err(m),
                    Ok(yr) => match text_read(args[3], "mpl_contour() color"@) {
                        Err(m) => Err(m),
                        Ok(c) => Ok((d, xr, yr, c)),
                    },
                },
            },
        }
    }
}

/// `mpl_contour(data, x_range, y_range, color)`: a contour over the ranges.
pub fn mpl_contour(plot: &mut Plotter, args: Vec<Value>) -> (r: Result<Value, String>)
    ensures
        plotted(*old(plot), *final(plot), r, contour_read(args@),
            |t: (Seq<Seq<u64>>, (u64, u64), (u64, u64), Seq<char>), c: PlotCommand|
                c matches PlotCommand::Contour { data, x_range, y_range, color } && rows_are(data@, t.0)
                    && x_range == t.1 && y_range == t.2 && color@ == t.3),
{
    if args.len() != 4 {
        return Err(arity_error("mpl_contour", "4 arguments", args.len()));
    }
    let data = read_matrix(&args[0], "mpl_contour() data")?;
    let x_range = read_range(&args[1], "mpl_contour() x_range")?;
    let y_range = read_range(&args[2], "mpl_contour() y_range")?;
    let color = read_text(&args[3], "mpl_contour() color")?;
    push_command(plot, PlotCommand::Contour { data, x_range, y_range, color })
}

/// `mpl_errorbar`'s series and colour.
pub open spec fn errorbar_read(args: Seq<Value>) -> Result<(Seq<u64>, Seq<u64>, Seq<u64>, Seq<char>), Seq<char>> {
    if args.len() < 3 || args.len() > 4 {
        Err(arity_message("mpl_errorbar"@, "3 or 4 arguments"@, args.len()))
    } else {
        match numbers_read(args[0], "mpl_errorbar() x"@) {
            Err(m) => Err(m),
            Ok(x) => match numbers_read(args[1], "mpl_errorbar() y"@) {
                Err(m) => Err(m),
                Ok(y) => match numbers_read(args[2], "mpl_errorbar() yerr"@) {
                    Err(m) => Err(m),
                    Ok(e) => if x.len() != y.len() || y.len() != e.len() {
                        Err("mpl_errorbar() expects x, y, and yerr arrays of equal length"@)
                    } else {
                        match opt_text_read(args, 3, "mpl_errorbar() color"@, "black"@) {
                            Err(m) => Err(m),
                            Ok(c) => Ok((x, y, e, c)),
                        }
                    },
                },
            },
        }
    }
}

/// `mpl_errorbar(x, y, yerr, [color])`: points with error bars, black unless
/// told otherwise.
pub fn mpl_errorbar(plot: &mut Plotter, args: Vec<Value>) -> (r: Result<Value, String>)
    ensures
        plotted(*old(plot), *final(plot), r, errorbar_read(args@),
            |t: (Seq<u64>, Seq<u64>, Seq<u64>, Seq<char>), c: PlotCommand|
                c matches PlotCommand::ErrorBar { x, y, yerr, color } && x@ == t.0 && y@ == t.1 && yerr@ == t.2
                    && color@ == t.3),
{
    if args.len() < 3 || args.len() > 4 {
        return Err(arity_error("mpl_errorbar", "3 or 4 arguments", args.len()));
    }
    let x = read_numbers(&args[0], "mpl_errorbar() x")?;
    let y = read_numbers(&args[1], "mpl_errorbar() y")?;
    let yerr = read_numbers(&args[2], "mpl_errorbar() yerr")?;
    if x.len() != y.len() || y.len() != yerr.len() {
        return Err(text("mpl_errorbar() expects x, y, and yerr arrays of equal length"));
    }
    let color = read_opt_text(&args, 3, "mpl_errorbar() color", "black")?;
    push_command(plot, PlotCommand::ErrorBar { x, y, yerr, color })
}

/// `mpl_quiver`'s series and colour.
pub open spec fn quiver_read(args: Seq<Value>) -> Result<(Seq<u64>, Seq<u64>, Seq<u64>, Seq<u64>, Seq<char>), Seq<char>> {
    if args.len() < 4 || args.len() > 5 {
        Err(arity_message("mpl_quiver"@, "4 or 5 arguments"@, args.len()))
    } else {
        match numbers_read(args[0], "mpl_quiver() x"@) {
            Err(m) => Err(m),
            Ok(x) => match numbers_read(args[1], "mpl_quiver() y"@) {
                Err(m) => Err(m),
                Ok(y) => match numbers_read(args[2], "mpl_quiver() u"@) {
                    Err(m) => Err(m),
                    Ok(u) => match numbers_read(args[3], "mpl_quiver() v"@) {
                        Err(m) => Err(m),
                        Ok(v) => if x.len() != y.len() || x.len() != u.len() || x.len() != v.len() {
                            Err("mpl_quiver() expects x, y, u, and v arrays of equal length"@)
                        } else {
                            match opt_text_read(args, 4, "mpl_quiver() color"@, "black"@) {
                                Err(m) => Err(m),
                                Ok(c) => Ok((x, y, u, v, c)),
                            }
                        },
                    },
                },
            },
        }
    }
}

/// `mpl_quiver(x, y, u, v, [color])`: arrows, black unless told otherwise.
pub fn mpl_quiver(plot: &mut Plotter, args: Vec<Value>) -> (r: Result<Value, String>)
    ensures
        plotted(*old(plot), *final(plot), r, quiver_read(args@),
            |t: (Seq<u64>, Seq<u64>, Seq<u64>, Seq<u64>, Seq<char>), c: PlotCommand|
                c matches PlotCommand::Quiver { x, y, u, v, color } && x@ == t.0 && y@ == t.1 && u@ == t.2
                    && v@ == t.3 && color@ == t.4),
{
    if args.len() < 4 || args.len() > 5 {
        return Err(arity_error("mpl_quiver", "4 or 5 arguments", args.len()));
    }
    let x = read_numbers(&args[0], "mpl_quiver() x")?;
    let y = read_numbers(&args[1], "mpl_quiver() y")?;
    let u = read_numbers(&args[2], "mpl_quiver() u")?;
    let v = read_numbers(&args[3], "mpl_quiver() v")?;
    if x.len() != y.len() || x.len() != u.len() || x.len() != v.len() {
        return Err(text("mpl_quiver() expects x, y, u, and v arrays of equal length"));
    }
    let color = read_opt_text(&args, 4, "mpl_quiver() color", "black")?;
    push_command(plot, PlotCommand::Quiver { x, y, u, v, color })
}

/// `mpl_stem`'s series and colours.
pub open spec fn stem_read(args: Seq<Value>) -> Result<(Seq<u64>, Seq<u64>, Seq<char>, Seq<char>), Seq<char>> {
    if args.len() < 2 || args.len() > 4 {
        Err(arity_message("mpl_stem"@, "2 to 4 arguments"@, args.len()))
    } else {
        match numbers_read(args[0], "mpl_stem() x values"@) {
            Err(m) => Err(m),
            Ok(x) => match numbers_read(args[1], "mpl_stem() y values"@) {
                Err(m) => Err(m),
                Ok(y) => if x.len() != y.len() {
                    Err("mpl_stem() expects x and y arrays of equal length"@)
                } else {
                    match opt_text_read(args, 2, "mpl_stem() marker_color"@, "black"@) {
                        Err(m) => Err(m),
                        Ok(mc) => match opt_text_read(args, 3, "mpl_stem() line_color"@, "blue"@) {
                            Err(m) => Err(m),
                            Ok(lc) => Ok((x, y, mc, lc)),
                        },
                    }
                },
            },
        }
    }
}

/// `mpl_stem(x, y, [marker_color], [line_color])`: a stem plot, black marks on
/// blue lines unless told otherwise.
pub fn mpl_stem(plot: &mut Plotter, args: Vec<Value>) -> (r: Result<Value, String>)
    ensures
        plotted(*old(plot), *final(plot), r, stem_read(args@),
            |t: (Seq<u64>, Seq<u64>, Seq<char>, Seq<char>), c: PlotCommand|
                c matches PlotCommand::StemPlot { x, y, marker_color, line_color } && x@ == t.0 && y@ == t.1
                    && marker_color@ == t.2 && line_color@ == t.3),
{
    if args.len() < 2 || args.len() > 4 {
        return Err(arity_error("mpl_stem", "2 to 4 arguments", args.len()));
    }
    let x = read_numbers(&args[0], "mpl_stem() x values")?;
    let y = read_numbers(&args[1], "mpl_stem() y values")?;
    if x.len() != y.len() {
        return Err(text("mpl_stem() expects x and y arrays of equal length"));
    }
    let marker_color = read_opt_text(&args, 2, "mpl_stem() marker_color", "black")?;
    let line_color = read_opt_text(&args, 3, "mpl_stem() line_color", "blue")?;
    push_command(plot, PlotCommand::StemPlot { x, y, marker_color, line_color })
}

/// `mpl_bubble`'s series and colour.
pub open spec fn bubble_read(args: Seq<Value>) -> Result<(Seq<u64>, Seq<u64>, Seq<u64>, Seq<char>), Seq<char>> {
    if args.len() < 3 || args.len() > 4 {
        Err(arity_message("mpl_bubble"@, "3 or 4 arguments"@, args.len()))
    } else {
        match numbers_read(args[0], "mpl_bubble() x values"@) {
            Err(m) => Err(m),
            Ok(x) => match numbers_read(args[1], "mpl_bubble() y values"@) {
                Err(m) => Err(m),
                Ok(y) => match numbers_read(args[2], "mpl_bubble() sizes"@) {
                    Err(m) => Err(m),
                    Ok(z) => if x.len() != y.len() || x.len() != z.len() {
                        Err("mpl_bubble() expects x, y, and sizes arrays of equal length"@)
                    } else {
                        match opt_text_read(args, 3, "mpl_bubble() color"@, "blue"@) {
                            Err(m) => Err(m),
                            Ok(c) => Ok((x, y, z, c)),
                        }
                    },
                },
            },
        }
    }
}

/// `mpl_bubble(x, y, sizes, [color])`: bubbles, blue unless told otherwise.
pub fn mpl_bubble(plot: &mut Plotter, args: Vec<Value>) -> (r: Result<Value, String>)
    ensures
        plotted(*old(plot), *final(plot), r, bubble_read(args@),
            |t: (Seq<u64>, Seq<u64>, Seq<u64>, Seq<char>), c: PlotCommand|
                c matches PlotCommand::BubbleChart { x, y, sizes, color } && x@ == t.0 && y@ == t.1
                    && sizes@ == t.2 && color@ == t.3),
{
    if args.len() < 3 || args.len() > 4 {
        return Err(arity_error("mpl_bubble", "3 or 4 arguments", args.len()));
    }
    let x = read_numbers(&args[0], "mpl_bubble() x values")?;
    let y = read_numbers(&args[1], "mpl_bubble() y values")?;
    let sizes = read_numbers(&args[2], "mpl_bubble() sizes")?;
    if x.len() != y.len() || x.len() != sizes.len() {
        return Err(text("mpl_bubble() expects x, y, and sizes arrays of equal length"));
    }
    let color = read_opt_text(&args, 3, "mpl_bubble() color", "blue")?;
    push_command(plot, PlotCommand::BubbleChart { x, y, sizes, color })
}

/// `mpl_stackedbar`'s categories, rows of values and colours (taken in turn
/// unless given).
pub open spec fn stackedbar_read(args: Seq<Value>) -> Result<(Seq<Seq<char>>, Seq<Seq<u64>>, Seq<Seq<char>>), Seq<char>> {
    if args.len() < 2 || args.len() > 3 {
        Err(arity_message("mpl_stackedbar"@, "2 or 3 arguments"@, args.len()))
    } else {
        match texts_read(args[0], "mpl_stackedbar() categories"@) {
            Err(m) => Err(m),
            Ok(cats) => match matrix_read(args[1], "mpl_stackedbar() values"@) {
                Err(m) => Err(m),
                Ok(vals) => if vals.len() != cats.len() {
                    Err("mpl_stackedbar() expects the number of rows in values to match the number of categories"@)
                } else if args.len() == 3 {
                    match texts_read(args[2], "mpl_stackedbar() colors"@) {
                        Err(m) => Err(m),
                        Ok(cs) => Ok((cats, vals, cs)),
                    }
                } else {
                    Ok((cats, vals, cycle_colors(cats.len())))
                },
            },
        }
    }
}

/// `mpl_stackedbar(categories, values, [colors])`: stacked bars.
pub fn mpl_stackedbar(plot: &mut Plotter, args: Vec<Value>) -> (r: Result<Value, String>)
    ensures
        plotted(*old(plot), *final(plot), r, stackedbar_read(args@),
            |t: (Seq<Seq<char>>, Seq<Seq<u64>>, Seq<Seq<char>>), c: PlotCommand|
                c matches PlotCommand::StackedBar { categories, values, colors } && texts_are(categories@, t.0)
                    && rows_are(values@, t.1) && texts_are(colors@, t.2)),
{
    if args.len() < 2 || args.len() > 3 {
        return Err(arity_error("mpl_stackedbar", "2 or 3 arguments", args.len()));
    }
    let categories = read_texts(&args[0], "mpl_stackedbar() categories")?;
    let values = read_matrix(&args[1], "mpl_stackedbar() values")?;
    if values.len() != categories.len() {
        return Err(text("mpl_stackedbar() expects the number of rows in values to match the number of categories"));
    }
    let colors = if args.len() == 3 {
        read_texts(&args[2], "mpl_stackedbar() colors")?
    } else {
        color_cycle(categories.len())
    };
    push_command(plot, PlotCommand::StackedBar { categories, values, colors })
}

/// `mpl_candlestick`'s series and colours.
pub open spec fn candlestick_read(args: Seq<Value>)
    -> Result<(Seq<Seq<char>>, Seq<u64>, Seq<u64>, Seq<u64>, Seq<u64>, Seq<char>, Seq<char>), Seq<char>> {
    if args.len() < 5 || args.len() > 7 {
        Err(arity_message("mpl_candlestick"@, "5 to 7 arguments"@, args.len()))
    } else {
        match texts_read(args[0], "mpl_candlestick() timestamps"@) {
            Err(m) => Err(m),
            Ok(ts) => match numbers_read(args[1], "mpl_candlestick() open"@) {
                Err(m) => Err(m),
                Ok(o) => match numbers_read(args[2], "mpl_candlestick() high"@) {
                    Err(m) => Err(m),
                    Ok(h) => match numbers_read(args[3], "mpl_candlestick() low"@) {
                        Err(m) => Err(m),
                        Ok(l) => match numbers_read(args[4], "mpl_candlestick() close"@) {
                            Err(m) => Err(m),
                            Ok(c) => if ts.len() != o.len() || o.len() != h.len() || h.len() != l.len()
                                || l.len() != c.len() {
                                Err("mpl_candlestick() expects all arrays to be of equal length"@)
                            } else {
                                match opt_text_read(args, 5, "mpl_candlestick() color_up"@, "green"@) {
                                    Err(m) => Err(m),
                                    Ok(up) => match opt_text_read(args, 6, "mpl_candlestick() color_down"@, "red"@) {
                                        Err(m) => Err(m),
                                        Ok(down) => Ok((ts, o, h, l, c, up, down)),
                                    },
                                }
                            },
                        },
                    },
                },
            },
        }
    }
}

/// `mpl_candlestick(timestamps, open, high, low, close, [color_up],
/// [color_down])`: candles, green up and red down unless told otherwise.
pub fn mpl_candlestick(plot: &mut Plotter, args: Vec<Value>) -> (r: Result<Value, String>)
    ensures
        plotted(*old(plot), *final(plot), r, candlestick_read(args@),
            |t: (Seq<Seq<char>>, Seq<u64>, Seq<u64>, Seq<u64>, Seq<u64>, Seq<char>, Seq<char>), c: PlotCommand|
                c matches PlotCommand::Candlestick { timestamps, open, high, low, close, color_up, color_down }
                    && texts_are(timestamps@, t.0) && open@ == t.1 && high@ == t.2 && low@ == t.3 && close@ == t.4
                    && color_up@ == t.5 && color_down@ == t.6),
{
    if args.len() < 5 || args.len() > 7 {
        return Err(arity_error("mpl_candlestick", "5 to 7 arguments", args.len()));
    }
    let timestamps = read_texts(&args[0], "mpl_candlestick() timestamps")?;
    let open = read_numbers(&args[1], "mpl_candlestick() open")?;
    let high = read_numbers(&args[2], "mpl_candlestick() high")?;
    let low = read_numbers(&args[3], "mpl_candlestick() low")?;
    let close = read_numbers(&args[4], "mpl_candlestick() close")?;
    if timestamps.len() != open.len() || open.len() != high.len() || high.len() != low.len() || low.len() != close.len() {
        return Err(text("mpl_candlestick() expects all arrays to be of equal length"));
    }
    let color_up = read_opt_text(&args, 5, "mpl_candlestick() color_up", "green")?;
    let color_down = read_opt_text(&args, 6, "mpl_candlestick() color_down", "red")?;
    push_command(plot, PlotCommand::Candlestick { timestamps, open, high, low, close, color_up, color_down })
}

/// `mpl_radar`'s labels, rows of data and colour.
pub open spec fn radar_read(args: Seq<Value>) -> Result<(Seq<Seq<char>>, Seq<Seq<u64>>, Seq<char>), Seq<char>> {
    if args.len() < 2 || args.len() > 3 {
        Err(arity_message("mpl_radar"@, "2 or 3 arguments"@, args.len()))
    } else {
        match texts_read(args[0], "mpl_radar() labels"@) {
            Err(m) => Err(m),
            Ok(ls) => match matrix_read(args[1], "mpl_radar() data"@) {
                Err(m) => Err(m),
                Ok(d) => match opt_text_read(args, 2, "mpl_radar() color"@, "blue"@) {
                    Err(m) => Err(m),
                    Ok(c) => Ok((ls, d, c)),
                },
            },
        }
    }
}

/// `mpl_radar(labels, data, [color])`: a radar chart, blue unless told
/// otherwise.
pub fn mpl_radar(plot: &mut Plotter, args: Vec<Value>) -> (r: Result<Value, String>)
    ensures
        plotted(*old(plot), *final(plot), r, radar_read(args@),
            |t: (Seq<Seq<char>>, Seq<Seq<u64>>, Seq<char>), c: PlotCommand|
                c matches PlotCommand::RadarChart { labels, data, color } && texts_are(labels@, t.0)
                    && rows_are(data@, t.1) && color@ == t.2),
{
    if args.len() < 2 || args.len() > 3 {
        return Err(arity_error("mpl_radar", "2 or 3 arguments", args.len()));
    }
    let labels = read_texts(&args[0], "mpl_radar() labels")?;
    let data = read_matrix(&args[1], "mpl_radar() data")?;
    let color = read_opt_text(&args, 2, "mpl_radar() color", "blue")?;
    push_command(plot, PlotCommand::RadarChart { labels, data, color })
}

/// The file that `mpl_savefig(filename)` writes the current figure to, or the
/// error of the call.
pub fn savefig_request(plot: &Plotter, args: &Vec<Value>) -> (r: Result<String, String>)
    ensures
        args.len() != 1 ==> fails_with(r, arity_message("mpl_savefig"@, "1 argument"@, args.len() as nat)),
        args.len() == 1 ==> match text_read(args@[0], "mpl_savefig() filename"@) {
            Err(m) => fails_with(r, m),
            Ok(f) => if plot.current is None {
                fails_with(r, no_figure())
            } else {
                r matches Ok(x) && x@ == f
            },
        },
{
    if args.len() != 1 {
        return Err(arity_error("mpl_savefig", "1 argument", args.len()));
    }
    let f = read_text(&args[0], "mpl_savefig() filename")?;
    if plot.current.is_none() {
        return Err(text("No active figure. Call mpl_figure() first."));
    }
    Ok(f)
}

} // verus!
