//! File dialogs: their filters, the options a dialog opens with, and the
//! value its answer gives. Opening the dialog is the window's work.

use vstd::prelude::*;
use crate::lists::shown_text;
use crate::render::{number_texts, shown_string, writes_numbers};
use crate::text::{arity_error, arity_message, fails_with, text};
use crate::ui::{FileDialogOptions, Ui};
use crate::value::Value;

verus! {

/// A filter as `[name, [extensions]]`: its name and the text of each
/// extension, or the error.
pub open spec fn filter_read(v: Value, nt: spec_fn(u64) -> (Seq<char>, Seq<char>)) -> Result<(Seq<char>, Seq<Seq<char>>), Seq<char>> {
    match v {
        Value::Array(pair) => if pair@.len() != 2 {
            Err("Each filter must be a pair [name, extensions]"@)
        } else {
            match (pair@[0], pair@[1]) {
                (Value::String(name), Value::Array(exts)) =>
                    Ok((name@, Seq::new(exts@.len(), |i: int| shown_text(exts@[i], nt)))),
                _ => Err("Each filter pair must be [string, array of strings]"@),
            }
        },
        _ => Err("Filters must be an array of [name, extensions] pairs"@),
    }
}

/// All the filters of a list, or the error of the first that is not one.
pub open spec fn filters_read(items: Seq<Value>, nt: spec_fn(u64) -> (Seq<char>, Seq<char>)) -> Result<Seq<(Seq<char>, Seq<Seq<char>>)>, Seq<char>>
    decreases items.len(),
{
    if items.len() == 0 {
        Ok(Seq::empty())
    } else {
        match filters_read(items.drop_last(), nt) {
            Err(m) => Err(m),
            Ok(p) => match filter_read(items.last(), nt) {
                Err(m) => Err(m),
                Ok(f) => Ok(p.push(f)),
            },
        }
    }
}

/// The filters of a list, those items that are not filters left out.
pub open spec fn filters_kept(items: Seq<Value>, nt: spec_fn(u64) -> (Seq<char>, Seq<char>)) -> Seq<(Seq<char>, Seq<Seq<char>>)>
    decreases items.len(),
{
    if items.len() == 0 {
        Seq::empty()
    } else {
        match filter_read(items.last(), nt) {
            Ok(f) => filters_kept(items.drop_last(), nt).push(f),
            Err(_) => filters_kept(items.drop_last(), nt),
        }
    }
}

/// A filter by its name and the texts of its extensions.
pub open spec fn filter_model(f: (String, Vec<String>)) -> (Seq<char>, Seq<Seq<char>>) {
    (f.0@, f.1@.map_values(|e: String| e@))
}

/// Filters by their names and the texts of their extensions.
pub open spec fn filters_model(v: Seq<(String, Vec<String>)>) -> Seq<(Seq<char>, Seq<Seq<char>>)> {
    v.map_values(|f: (String, Vec<String>)| filter_model(f))
}

/// Optional filters by their names and the texts of their extensions.
pub open spec fn opt_filters_model(o: Option<Vec<(String, Vec<String>)>>) -> Option<Seq<(Seq<char>, Seq<Seq<char>>)>> {
    match o {
        Some(v) => Some(filters_model(v@)),
        None => None,
    }
}

fn read_filter<F: Fn(u64) -> (String, String)>(v: &Value, decimals: &F) -> (r: Result<(String, Vec<String>), String>)
    requires
        writes_numbers(*decimals),
    ensures
        match filter_read(*v, number_texts(*decimals)) {
            Ok(f) => r matches Ok(x) && filter_model(x) == f,
            Err(m) => fails_with(r, m),
        },
{
    match v {
        Value::Array(pair) => {
            if pair.len() != 2 {
                return Err(text("Each filter must be a pair [name, extensions]"));
            }
            match (&pair[0], &pair[1]) {
                (Value::String(name), Value::Array(exts)) => {
                    let mut out: Vec<String> = Vec::new();
                    let mut i: usize = 0;
                    while i < exts.len()
                        invariant
                            i <= exts@.len(),
                            out@.len() == i,
                            writes_numbers(*decimals),
                            forall|j: int| 0 <= j < i ==> (#[trigger] out@[j])@ == shown_text(exts@[j], number_texts(*decimals)),
                        decreases exts.len() - i,
                    {
                        out.push(shown_string(&exts[i], decimals));
                        i = i + 1;
                    }
                    let x = (name.clone(), out);
                    proof {
                        assert(x.1@.map_values(|e: String| e@) =~= Seq::new(exts@.len(), |k: int| shown_text(exts@[k], number_texts(*decimals))));
                    }
                    Ok(x)
                },
                _ => Err(text("Each filter pair must be [string, array of strings]")),
            }
        },
        _ => Err(text("Filters must be an array of [name, extensions] pairs")),
    }
}

proof fn lemma_filters_error_stays(items: Seq<Value>, k: int, nt: spec_fn(u64) -> (Seq<char>, Seq<char>))
    requires
        0 <= k <= items.len(),
        filters_read(items.take(k), nt) is Err,
    ensures
        filters_read(items, nt) == filters_read(items.take(k), nt),
    decreases items.len() - k,
{
    if k == items.len() {
        assert(items.take(k) =~= items);
    } else {
        assert(items.take(k + 1).drop_last() =~= items.take(k));
        lemma_filters_error_stays(items, k + 1, nt);
    }
}

/// `set_dialog_filters([[name, [extensions]], ...])`: the filters of the next
/// file dialogs; each extension is taken by its text.
pub fn set_dialog_filters<F: Fn(u64) -> (String, String)>(ui: &mut Ui, args: Vec<Value>, decimals: &F) -> (r: Result<Value, String>)
    requires
        writes_numbers(*decimals),
    ensures
        args.len() != 1 ==> fails_with(r, arity_message("set_dialog_filters"@, "1 argument (filters)"@, args.len() as nat))
            && *final(ui) == *old(ui),
        args.len() == 1 ==> match args@[0] {
            Value::Array(items) => match filters_read(items@, number_texts(*decimals)) {
                Err(m) => fails_with(r, m) && *final(ui) == *old(ui),
                Ok(fs) => {
                    &&& r == Ok::<Value, String>(Value::Null)
                    &&& opt_filters_model(final(ui).dialog_options.filters) == Some(fs)
                    &&& final(ui).dialog_options == (FileDialogOptions {
                        filters: final(ui).dialog_options.filters,
                        ..old(ui).dialog_options
                    })
                    &&& *final(ui) == (Ui { dialog_options: final(ui).dialog_options, ..*old(ui) })
                },
            },
            _ => fails_with(r, "set_dialog_filters() expects an array of filter pairs"@) && *final(ui) == *old(ui),
        },
{
    if args.len() != 1 {
        return Err(arity_error("set_dialog_filters", "1 argument (filters)", args.len()));
    }
    let items = match &args[0] {
        Value::Array(items) => items,
        _ => return Err(text("set_dialog_filters() expects an array of filter pairs")),
    };
    let mut fs: Vec<(String, Vec<String>)> = Vec::new();
    let mut i: usize = 0;
    proof {
        assert(items@.take(0) =~= Seq::<Value>::empty());
        assert(filters_model(fs@) =~= Seq::<(Seq<char>, Seq<Seq<char>>)>::empty());
    }
    while i < items.len()
        invariant
            args.len() == 1,
            args@[0] == Value::Array(*items),
            *ui == *old(ui),
            i <= items@.len(),
            writes_numbers(*decimals),
            filters_read(items@.take(i as int), number_texts(*decimals)) == Ok::<Seq<(Seq<char>, Seq<Seq<char>>)>, Seq<char>>(filters_model(fs@)),
        decreases items.len() - i,
    {
        proof {
            assert(items@.take(i + 1).drop_last() =~= items@.take(i as int));
            assert(items@.take(i + 1).last() == items@[i as int]);
        }
        match read_filter(&items[i], decimals) {
            Ok(f) => {
                let ghost before = fs@;
                fs.push(f);
                proof {
                    assert(filters_model(fs@) =~= filters_model(before).push(filter_model(f)));
                }
            },
            Err(e) => {
                proof {
                    lemma_filters_error_stays(items@, i + 1, number_texts(*decimals));
                }
                return Err(e);
            },
        }
        i = i + 1;
    }
    proof {
        assert(items@.take(i as int) =~= items@);
    }
    ui.dialog_options.filters = Some(fs);
    Ok(Value::Null)
}

/// The options a file dialog opens with: the options set before, with the
/// title (argument 0), the choice of several (argument 1, when `several` is
/// read), the starting path (argument 2) and the filters (argument 3, those
/// items that are filters) that the call gives in place of theirs.
pub open spec fn request_made(
    ui: Ui,
    args: Seq<Value>,
    several: bool,
    o: FileDialogOptions,
    nt: spec_fn(u64) -> (Seq<char>, Seq<char>),
) -> bool {
    let d = ui.dialog_options;
    &&& (if args.len() > 0 && args[0] is String {
        o.title matches Some(t) && t@ == args[0]->String_0@
    } else {
        o.title == d.title
    })
    &&& o.multiselect == (if several && args.len() > 1 && args[1] is Bool { args[1]->Bool_0 } else { d.multiselect })
    &&& (if args.len() > 2 && args[2] is String {
        o.startingpath matches Some(p) && p@ == args[2]->String_0@
    } else {
        o.startingpath == d.startingpath
    })
    &&& opt_filters_model(o.filters) == (if args.len() > 3 && args[3] is Array {
        Some(filters_kept(args[3]->Array_0@, nt))
    } else {
        opt_filters_model(d.filters)
    })
}

fn copy_filters(fs: &Vec<(String, Vec<String>)>) -> (r: Vec<(String, Vec<String>)>)
    ensures
        filters_model(r@) == filters_model(fs@),
{
    let mut out: Vec<(String, Vec<String>)> = Vec::new();
    let mut i: usize = 0;
    proof {
        assert(fs@.take(0) =~= Seq::<(String, Vec<String>)>::empty());
        assert(filters_model(out@) =~= filters_model(fs@.take(0)));
    }
    while i < fs.len()
        invariant
            i <= fs@.len(),
            filters_model(out@) == filters_model(fs@.take(i as int)),
        decreases fs.len() - i,
    {
        let name = fs[i].0.clone();
        let mut exts: Vec<String> = Vec::new();
        let mut j: usize = 0;
        proof {
            assert(exts@.map_values(|e: String| e@) =~= fs@[i as int].1@.take(0).map_values(|e: String| e@));
        }
        while j < fs[i].1.len()
            invariant
                i < fs@.len(),
                j <= fs@[i as int].1@.len(),
                exts@.map_values(|e: String| e@) == fs@[i as int].1@.take(j as int).map_values(|e: String| e@),
            decreases fs[i as int].1@.len() - j,
        {
            let ghost before = exts@;
            let c = fs[i].1[j].clone();
            exts.push(c);
            proof {
                let w = fs@[i as int].1@;
                assert(exts@.map_values(|e: String| e@) =~= before.map_values(|e: String| e@).push(w[j as int]@));
                assert(w.take(j + 1).map_values(|e: String| e@) =~= w.take(j as int).map_values(|e: String| e@).push(w[j as int]@));
            }
            j = j + 1;
        }
        proof {
            assert(fs@[i as int].1@.take(j as int) =~= fs@[i as int].1@);
        }
        let ghost before = out@;
        let ghost e = fs@[i as int];
        out.push((name, exts));
        proof {
            assert(filter_model(out@.last()) == filter_model(e));
            assert(filters_model(out@) =~= filters_model(before).push(filter_model(e)));
            assert(filters_model(fs@.take(i + 1)) =~= filters_model(fs@.take(i as int)).push(filter_model(e)));
        }
        i = i + 1;
    }
    proof {
        assert(fs@.take(i as int) =~= fs@);
    }
    out
}

fn kept_filters<F: Fn(u64) -> (String, String)>(items: &Vec<Value>, decimals: &F) -> (r: Vec<(String, Vec<String>)>)
    requires
        writes_numbers(*decimals),
    ensures
        filters_model(r@) == filters_kept(items@, number_texts(*decimals)),
{
    let mut fs: Vec<(String, Vec<String>)> = Vec::new();
    let mut i: usize = 0;
    proof {
        assert(items@.take(0) =~= Seq::<Value>::empty());
        assert(filters_model(fs@) =~= Seq::<(Seq<char>, Seq<Seq<char>>)>::empty());
    }
    while i < items.len()
        invariant
            i <= items@.len(),
            writes_numbers(*decimals),
            filters_model(fs@) == filters_kept(items@.take(i as int), number_texts(*decimals)),
        decreases items.len() - i,
    {
        proof {
            assert(items@.take(i + 1).drop_last() =~= items@.take(i as int));
            assert(items@.take(i + 1).last() == items@[i as int]);
        }
        match read_filter(&items[i], decimals) {
            Ok(f) => {
                let ghost before = fs@;
                fs.push(f);
                proof {
                    assert(filters_model(fs@) =~= filters_model(before).push(filter_model(f)));
                }
            },
            Err(_) => {},
        }
        i = i + 1;
    }
    proof {
        assert(items@.take(i as int) =~= items@);
    }
    fs
}

/// The options of a file dialog that `name` opens, or the error of its
/// arguments.
pub open spec fn dialog_request(
    ui: Ui,
    args: Seq<Value>,
    name: Seq<char>,
    several: bool,
    r: Result<FileDialogOptions, String>,
    nt: spec_fn(u64) -> (Seq<char>, Seq<char>),
) -> bool {
    if args.len() > 4 {
        fails_with(r, arity_message(name, "0-4 arguments (title, multiselect, startingpath, filters)"@, args.len()))
    } else {
        r matches Ok(o) && request_made(ui, args, several, o, nt)
    }
}

fn file_dialog_request<F: Fn(u64) -> (String, String)>(ui: &Ui, args: &Vec<Value>, name: &str, several: bool, decimals: &F) -> (r: Result<
    FileDialogOptions,
    String,
>)
    requires
        writes_numbers(*decimals),
    ensures
        dialog_request(*ui, args@, name@, several, r, number_texts(*decimals)),
{
    if args.len() > 4 {
        return Err(arity_error(name, "0-4 arguments (title, multiselect, startingpath, filters)", args.len()));
    }
    let d = &ui.dialog_options;
    let title = if args.len() > 0 {
        match &args[0] {
            Value::String(t) => Some(t.clone()),
            _ => d.title.clone(),
        }
    } else {
        d.title.clone()
    };
    let multiselect = if several && args.len() > 1 {
        match &args[1] {
            Value::Bool(b) => *b,
            _ => d.multiselect,
        }
    } else {
        d.multiselect
    };
    let startingpath = if args.len() > 2 {
        match &args[2] {
            Value::String(p) => Some(p.clone()),
            _ => d.startingpath.clone(),
        }
    } else {
        d.startingpath.clone()
    };
    let filters = if args.len() > 3 {
        match &args[3] {
            Value::Array(items) => Some(kept_filters(items, decimals)),
            _ => match &d.filters {
                Some(fs) => Some(copy_filters(fs)),
                None => None,
            },
        }
    } else {
        match &d.filters {
            Some(fs) => Some(copy_filters(fs)),
            None => None,
        }
    };
    Ok(FileDialogOptions { title, multiselect, startingpath, filters })
}

/// The options `save_file_dialog(title, multiselect, startingpath, filters)`
/// opens its dialog with; it picks one file whatever the choice of several.
pub fn save_file_request<F: Fn(u64) -> (String, String)>(ui: &Ui, args: &Vec<Value>, decimals: &F) -> (r: Result<FileDialogOptions, String>)
    requires
        writes_numbers(*decimals),
    ensures
        dialog_request(*ui, args@, "save_file_dialog"@, false, r, number_texts(*decimals)),
{
    file_dialog_request(ui, args, "save_file_dialog", false, decimals)
}

/// The options `open_file_dialog(title, multiselect, startingpath, filters)`
/// opens its dialog with.
pub fn open_file_request<F: Fn(u64) -> (String, String)>(ui: &Ui, args: &Vec<Value>, decimals: &F) -> (r: Result<FileDialogOptions, String>)
    requires
        writes_numbers(*decimals),
    ensures
        dialog_request(*ui, args@, "open_file_dialog"@, true, r, number_texts(*decimals)),
{
    file_dialog_request(ui, args, "open_file_dialog", true, decimals)
}

/// The options `folder_dialog(title, multiselect, startingpath, filters)`
/// opens its dialog with; a folder dialog shows no filters.
pub fn folder_request<F: Fn(u64) -> (String, String)>(ui: &Ui, args: &Vec<Value>, decimals: &F) -> (r: Result<FileDialogOptions, String>)
    requires
        writes_numbers(*decimals),
    ensures
        dialog_request(*ui, args@, "folder_dialog"@, true, r, number_texts(*decimals)),
{
    file_dialog_request(ui, args, "folder_dialog", true, decimals)
}

/// What a dialog that picks one path gives: the path, or `missing` when it
/// was cancelled.
pub fn picked_one(path: Option<String>, missing: &str) -> (r: Result<Value, String>)
    ensures
        match path {
            Some(p) => r == Ok::<Value, String>(Value::String(p)),
            None => fails_with(r, missing@),
        },
{
    match path {
        Some(p) => Ok(Value::String(p)),
        None => Err(text(missing)),
    }
}

/// What a dialog that picks several paths gives: the array of the paths, or
/// `missing` when it was cancelled.
pub fn picked_many(paths: Option<Vec<String>>, missing: &str) -> (r: Result<Value, String>)
    ensures
        match paths {
            Some(ps) => r matches Ok(Value::Array(items)) && items@.len() == ps@.len()
                && forall|i: int| 0 <= i < ps@.len() ==> items@[i] == Value::String(#[trigger] ps@[i]),
            None => fails_with(r, missing@),
        },
{
    match paths {
        Some(ps) => {
            let mut items: Vec<Value> = Vec::new();
            let mut i: usize = 0;
            while i < ps.len()
                invariant
                    i <= ps@.len(),
                    items@.len() == i,
                    forall|j: int| 0 <= j < i ==> items@[j] == Value::String(#[trigger] ps@[j]),
                decreases ps.len() - i,
            {
                items.push(Value::String(ps[i].clone()));
                i = i + 1;
            }
            Ok(Value::Array(items))
        },
        None => Err(text(missing)),
    }
}

} // verus!
