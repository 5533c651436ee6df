//! Menu bars: items nested under items, found by label anywhere in the menu
//! (the first one in depth-first order), read from arrays of values.

use vstd::prelude::*;
use crate::text::{arity_error, arity_message, fails_with, text};
use crate::ui::{expects, expects_error, MenuItem, MenuState, Ui};
use crate::value::{copy_of, copy_value, Value};

verus! {

/// The item `n` or an item under it has the label `t`.
pub open spec fn item_holds(n: MenuItem, t: Seq<char>) -> bool
    decreases n,
{
    n.label@ == t || first_item(n.children@, t) >= 0
}

/// The index of the first item of `ns` that holds `t`, or -1.
pub open spec fn first_item(ns: Seq<MenuItem>, t: Seq<char>) -> int
    decreases ns,
{
    if ns.len() == 0 {
        -1
    } else if item_holds(ns[0], t) {
        0
    } else {
        let k = first_item(ns.subrange(1, ns.len() as int), t);
        if k < 0 {
            -1
        } else {
            k + 1
        }
    }
}

/// Where the first item that holds `t` stands.
pub proof fn lemma_first_item(ns: Seq<MenuItem>, t: Seq<char>)
    ensures
        -1 <= first_item(ns, t) < ns.len(),
        first_item(ns, t) >= 0 ==> item_holds(ns[first_item(ns, t)], t),
        forall|j: int|
            0 <= j < ns.len() && (first_item(ns, t) < 0 || j < first_item(ns, t)) ==> !#[trigger] item_holds(ns[j], t),
    decreases ns.len(),
{
    if ns.len() > 0 {
        let rest = ns.subrange(1, ns.len() as int);
        lemma_first_item(rest, t);
        assert forall|j: int|
            0 <= j < ns.len() && (first_item(ns, t) < 0 || j < first_item(ns, t)) implies !#[trigger] item_holds(ns[j], t) by {
            if j > 0 {
                assert(ns[j] == rest[j - 1]);
            }
        }
        if first_item(ns, t) > 0 {
            assert(ns[first_item(ns, t)] == rest[first_item(ns, t) - 1]);
        }
    }
}

/// A change to one item.
pub enum MenuChange {
    Icon(Option<String>),
    AddSub(MenuItem),
}

/// `a` is the item `n` after the change.
pub open spec fn item_changed_to(n: MenuItem, a: MenuItem, ch: MenuChange) -> bool {
    match ch {
        MenuChange::Icon(i) => a == MenuItem { icon: i, ..n },
        MenuChange::AddSub(m) => {
            &&& a == MenuItem { children: a.children, ..n }
            &&& a.children@ == n.children@.push(m)
        },
    }
}

/// `a` is `b` with the change made to the first item labelled `t`, in
/// depth-first order.
pub open spec fn item_changed(b: MenuItem, a: MenuItem, t: Seq<char>, ch: MenuChange) -> bool
    decreases b,
{
    if b.label@ == t {
        item_changed_to(b, a, ch)
    } else {
        let i = first_item(b.children@, t);
        &&& a == MenuItem { children: a.children, ..b }
        &&& a.children@.len() == b.children@.len()
        &&& 0 <= i < b.children@.len()
        &&& forall|j: int| 0 <= j < b.children@.len() && j != i ==> a.children@[j] == b.children@[j]
        &&& item_changed(b.children@[i], a.children@[i], t, ch)
    }
}

/// The items `a` are `b` with the change made to the first item labelled `t`.
pub open spec fn items_changed(b: Seq<MenuItem>, a: Seq<MenuItem>, t: Seq<char>, ch: MenuChange) -> bool {
    let i = first_item(b, t);
    &&& a.len() == b.len()
    &&& 0 <= i < b.len()
    &&& forall|j: int| 0 <= j < b.len() && j != i ==> a[j] == b[j]
    &&& item_changed(b[i], a[i], t, ch)
}

fn item_has(n: &MenuItem, t: &String) -> (r: bool)
    ensures
        r == item_holds(*n, t@),
    decreases *n,
{
    if n.label == *t {
        return true;
    }
    find_item(&n.children, t).is_some()
}

fn find_item(ns: &Vec<MenuItem>, t: &String) -> (r: Option<usize>)
    ensures
        match r {
            Some(i) => i == first_item(ns@, t@),
            None => first_item(ns@, t@) == -1,
        },
    decreases *ns,
{
    let n = ns.len();
    let mut i: usize = 0;
    proof {
        assert(ns@.subrange(0, n as int) =~= ns@);
        lemma_first_item(ns@, t@);
    }
    while i < n
        invariant
            n == ns@.len(),
            i <= n,
            first_item(ns@, t@) == if first_item(ns@.subrange(i as int, n as int), t@) < 0 {
                -1
            } else {
                first_item(ns@.subrange(i as int, n as int), t@) + i
            },
        decreases n - i,
    {
        proof {
            broadcast use vstd::std_specs::vec::axiom_vec_index_decreases;
            assert(decreases_to!(*ns => ns[i as int]));
            let s = ns@.subrange(i as int, n as int);
            assert(s.subrange(1, s.len() as int) =~= ns@.subrange(i + 1, n as int));
            assert(s[0] == ns@[i as int]);
        }
        if item_has(&ns[i], t) {
            return Some(i);
        }
        i = i + 1;
    }
    None
}

fn change_item(n: &mut MenuItem, t: &String, ch: MenuChange)
    requires
        item_holds(*old(n), t@),
    ensures
        item_changed(*old(n), *final(n), t@, ch),
    decreases *old(n),
{
    if n.label == *t {
        match ch {
            MenuChange::Icon(i) => {
                n.icon = i;
            },
            MenuChange::AddSub(m) => {
                n.children.push(m);
            },
        }
        return;
    }
    let found = change_items(&mut n.children, t, ch);
    proof {
        assert(found);
    }
}

fn change_items(ns: &mut Vec<MenuItem>, t: &String, ch: MenuChange) -> (found: bool)
    ensures
        found == (first_item(old(ns)@, t@) >= 0),
        found ==> items_changed(old(ns)@, final(ns)@, t@, ch),
        !found ==> *final(ns) == *old(ns),
    decreases *old(ns),
{
    match find_item(ns, t) {
        Some(i) => {
            proof {
                broadcast use vstd::std_specs::vec::axiom_vec_index_decreases;
                lemma_first_item(ns@, t@);
                assert(decreases_to!(*old(ns) => old(ns)[i as int]));
            }
            let node = &mut ns[i];
            change_item(node, t, ch);
            true
        },
        None => false,
    }
}

/// The first item labelled `t` in depth-first order, in an item that holds it.
pub open spec fn item_found(n: MenuItem, t: Seq<char>) -> MenuItem
    decreases n,
{
    if n.label@ == t {
        n
    } else {
        let i = first_item(n.children@, t);
        if 0 <= i < n.children@.len() {
            item_found(n.children@[i], t)
        } else {
            n
        }
    }
}

fn find_in_item<'a>(n: &'a MenuItem, t: &String) -> (r: &'a MenuItem)
    requires
        item_holds(*n, t@),
    ensures
        *r == item_found(*n, t@),
    decreases *n,
{
    if n.label == *t {
        return n;
    }
    match find_item(&n.children, t) {
        Some(i) => {
            proof {
                broadcast use vstd::std_specs::vec::axiom_vec_index_decreases;
                lemma_first_item(n.children@, t@);
                assert(decreases_to!(n.children => n.children[i as int]));
            }
            find_in_item(&n.children[i], t)
        },
        None => {
            proof {
                lemma_first_item(n.children@, t@);
            }
            n
        },
    }
}

/// `m` is the item that the value `v` describes: an array of a label, a
/// callback, an array of items under it, a separator flag and an icon, each
/// optional; anything else is an item labelled "Invalid".
pub open spec fn parsed_item(v: Value, m: MenuItem) -> bool
    decreases v,
{
    match v {
        Value::Array(a) => {
            &&& m.label@ == if a.len() > 0 && a@[0] is String {
                a@[0]->String_0@
            } else {
                "Invalid label"@
            }
            &&& if a.len() > 1 {
                m.callback matches Some(c) && copy_of(a@[1], c)
            } else {
                m.callback is None
            }
            &&& if a.len() > 2 && a@[2] is Array {
                parsed_items(a@[2]->Array_0@, m.children@)
            } else {
                m.children@.len() == 0
            }
            &&& m.is_separator == (a.len() > 3 && a@[3] is Bool && a@[3]->Bool_0)
            &&& m.icon == if a.len() > 4 && a@[4] is String {
                Some(a@[4]->String_0)
            } else {
                None
            }
        },
        _ => {
            &&& m.label@ == "Invalid"@
            &&& m.icon is None
            &&& m.callback is None
            &&& m.children@.len() == 0
            &&& !m.is_separator
        },
    }
}

/// `ms` are the items that the values `vs` describe, one for one.
pub open spec fn parsed_items(vs: Seq<Value>, ms: Seq<MenuItem>) -> bool
    decreases vs,
{
    &&& vs.len() == ms.len()
    &&& forall|i: int| 0 <= i < vs.len() ==> parsed_item(#[trigger] vs[i], ms[i])
}

fn parse_items(vs: &Vec<Value>) -> (ms: Vec<MenuItem>)
    ensures
        parsed_items(vs@, ms@),
    decreases *vs,
{
    let mut ms: Vec<MenuItem> = Vec::new();
    let mut i: usize = 0;
    while i < vs.len()
        invariant
            i <= vs.len(),
            ms@.len() == i,
            forall|j: int| 0 <= j < i ==> parsed_item(#[trigger] vs@[j], ms@[j]),
        decreases vs.len() - i,
    {
        proof {
            broadcast use vstd::std_specs::vec::axiom_vec_index_decreases;
            assert(decreases_to!(*vs => vs[i as int]));
        }
        let m = parse_menu_item(&vs[i]);
        ms.push(m);
        i = i + 1;
    }
    ms
}

/// The item that a value describes (see `parsed_item`).
pub fn parse_menu_item(v: &Value) -> (m: MenuItem)
    ensures
        parsed_item(*v, m),
    decreases *v,
{
    match v {
        Value::Array(a) => {
            let label = if a.len() > 0 {
                match &a[0] {
                    Value::String(s) => s.clone(),
                    _ => text("Invalid label"),
                }
            } else {
                text("Invalid label")
            };
            let callback = if a.len() > 1 {
                Some(copy_value(&a[1]))
            } else {
                None
            };
            let children = if a.len() > 2 {
                match &a[2] {
                    Value::Array(sub) => {
                        proof {
                            broadcast use vstd::std_specs::vec::axiom_vec_index_decreases;
                            let ghost av = *v;
                            assert(decreases_to!(av => *a));
                            assert(decreases_to!(*a => a[2]));
                        }
                        parse_items(sub)
                    },
                    _ => Vec::new(),
                }
            } else {
                Vec::new()
            };
            let is_separator = if a.len() > 3 {
                match &a[3] {
                    Value::Bool(b) => *b,
                    _ => false,
                }
            } else {
                false
            };
            let icon = if a.len() > 4 {
                match &a[4] {
                    Value::String(s) => Some(s.clone()),
                    _ => None,
                }
            } else {
                None
            };
            MenuItem { label, icon, callback, children, is_separator }
        },
        _ => MenuItem { label: text("Invalid"), icon: None, callback: None, children: Vec::new(), is_separator: false },
    }
}

/// `createmenu(form, [x, y, width])`: an empty menu bar, 30 high, along the
/// top, as wide as the form unless told otherwise.
pub fn createmenu(ui: &mut Ui, args: Vec<Value>) -> (r: Result<Value, String>)
    ensures
        match crate::create::creation_error(args@, "createmenu"@, 1, 4, "1-4 arguments (form_id, [x, y, width])"@) {
            Some(m) => fails_with(r, m) && *final(ui) == *old(ui),
            None => {
                let form = crate::create::parent_arg(args@);
                if !old(ui).forms@.contains_key(form) {
                    fails_with(r, "Parent form not found"@) && *final(ui) == *old(ui)
                } else {
                    let id = r->Ok_0->String_0@;
                    let w = old(ui).forms@[form].width;
                    &&& r matches Ok(Value::String(i)) && crate::create::control_added(*old(ui), *final(ui), form, i)
                    &&& crate::containers::boxed(crate::containers::made(*final(ui), r), "menu"@, form, "menu"@,
                        (crate::create::arg_single(args@, 1, 0, 0), crate::create::arg_single(args@, 2, 0, 0),
                        crate::create::arg_single(args@, 3, w, w), crate::create::SIZE_30),
                        crate::gadgets::pale_grey(), (false, false), 0, crate::ui::DockStyle::Top, false,
                        "horizontal"@, "solid"@)
                    &&& final(ui).menus@ == old(ui).menus@.insert(id, final(ui).menus@[id])
                    &&& final(ui).menus@[id].items@.len() == 0
                    &&& !final(ui).menus@[id].is_open
                    &&& *final(ui) == (Ui { controls: final(ui).controls, forms: final(ui).forms, menus: final(ui).menus, ..*old(ui) })
                }
            },
        },
{
    if args.len() < 1 || args.len() > 4 {
        return Err(arity_error("createmenu", "1-4 arguments (form_id, [x, y, width])", args.len()));
    }
    let form = match &args[0] {
        Value::FormObject(id) => id.clone(),
        _ => return Err(expects_error("createmenu", "a Form identifier")),
    };
    let w = match ui.forms.get(&form) {
        Some(f) => f.width,
        None => return Err(text("Parent form not found")),
    };
    let place = (
        crate::create::opt_single(&args, 1, 0, 0),
        crate::create::opt_single(&args, 2, 0, 0),
        crate::create::opt_single(&args, 3, w, w),
        crate::create::SIZE_30,
    );
    let c = crate::containers::boxed_control("menu", &form, text("menu"), place,
        crate::ui::Color { r: 220, g: 220, b: 220, a: 255 }, (false, false), 0, crate::ui::DockStyle::Top, false,
        text("horizontal"), text("solid"));
    let id = crate::create::new_identifier();
    crate::create::add_control_as(ui, &form, id.clone(), c);
    ui.menus.insert(id.clone(), MenuState { items: Vec::new(), is_open: false });
    Ok(Value::String(id))
}

/// The items that an optional argument describes: an array of item
/// descriptions, else none.
pub open spec fn items_arg(args: Seq<Value>, i: int, ms: Seq<MenuItem>) -> bool {
    if i < args.len() && args[i] is Array {
        parsed_items(args[i]->Array_0@, ms)
    } else {
        ms.len() == 0
    }
}

fn opt_items(args: &Vec<Value>, i: usize) -> (ms: Vec<MenuItem>)
    ensures
        items_arg(args@, i as int, ms@),
{
    if i < args.len() {
        match &args[i] {
            Value::Array(a) => parse_items(a),
            _ => Vec::new(),
        }
    } else {
        Vec::new()
    }
}

fn opt_copy(args: &Vec<Value>, i: usize) -> (c: Option<Value>)
    ensures
        i < args.len() ==> (c matches Some(x) && copy_of(args@[i as int], x)),
        i >= args.len() ==> c is None,
{
    if i < args.len() {
        Some(copy_value(&args[i]))
    } else {
        None
    }
}

/// The text that optional argument `i` gives, if it is a text.
pub open spec fn text_arg_opt(args: Seq<Value>, i: int) -> Option<String> {
    if i < args.len() && args[i] is String {
        Some(args[i]->String_0)
    } else {
        None
    }
}

fn opt_text_arg(args: &Vec<Value>, i: usize) -> (r: Option<String>)
    ensures
        r == text_arg_opt(args@, i as int),
{
    if i < args.len() {
        match &args[i] {
            Value::String(s) => Some(s.clone()),
            _ => None,
        }
    } else {
        None
    }
}

/// `m` is a new item with this label, the copy of the callback argument `cb`
/// (if given), items and icon read from the arguments.
pub open spec fn new_item(m: MenuItem, label: Seq<char>, args: Seq<Value>, cb: int, kids: int, icon: int, sep: bool) -> bool {
    &&& m.label@ == label
    &&& if cb < args.len() {
        m.callback matches Some(c) && copy_of(args[cb], c)
    } else {
        m.callback is None
    }
    &&& items_arg(args, kids, m.children@)
    &&& m.icon == text_arg_opt(args, icon)
    &&& m.is_separator == sep
}

/// `add_menu_item(menu, label, [callback, items, icon])`: a new item at the end of the menu.
pub fn add_menu_item(ui: &mut Ui, args: Vec<Value>) -> (r: Result<Value, String>)
    ensures
        (args.len() < 2 || args.len() > 5) ==> fails_with(r, arity_message("add_menu_item"@,
            "2-5 arguments (menu_id, label, [callback], [children], [icon])"@, args.len() as nat)) && *final(ui) == *old(ui),
        2 <= args.len() <= 5 ==> match (args@[0], args@[1]) {
            (Value::String(ms), Value::String(label)) => if old(ui).menus@.contains_key(ms@) {
                let st = old(ui).menus@[ms@];
                let st2 = final(ui).menus@[ms@];
                &&& r == Ok::<Value, String>(Value::Null)
                &&& final(ui).menus@ == old(ui).menus@.insert(ms@, st2)
                &&& st2 == (MenuState { items: st2.items, ..st })
                &&& st2.items@.len() == st.items@.len() + 1
                &&& st2.items@.drop_last() == st.items@
                &&& new_item(st2.items@.last(), label@, args@, 2, 3, 4, false)
                &&& *final(ui) == (Ui { menus: final(ui).menus, ..*old(ui) })
            } else {
                fails_with(r, "Menu not found"@) && *final(ui) == *old(ui)
            },
            (Value::String(_), _) => fails_with(r, expects("add_menu_item"@, "a label string"@)) && *final(ui) == *old(ui),
            _ => fails_with(r, expects("add_menu_item"@, "a menu identifier"@)) && *final(ui) == *old(ui),
        },
{
    if args.len() < 2 || args.len() > 5 {
        return Err(arity_error("add_menu_item", "2-5 arguments (menu_id, label, [callback], [children], [icon])", args.len()));
    }
    let id = match &args[0] {
        Value::String(s) => s,
        _ => return Err(expects_error("add_menu_item", "a menu identifier")),
    };
    let label = match &args[1] {
        Value::String(s) => s.clone(),
        _ => return Err(expects_error("add_menu_item", "a label string")),
    };
    let callback = opt_copy(&args, 2);
    let children = opt_items(&args, 3);
    let icon = opt_text_arg(&args, 4);
    match ui.menus.find(id) {
        Some(i) => {
            let st = ui.menus.value_mut(i);
            let ghost before = st.items@;
            st.items.push(MenuItem { label, icon, callback, children, is_separator: false });
            proof {
                assert(st.items@.drop_last() =~= before);
            }
            Ok(Value::Null)
        },
        None => Err(text("Menu not found")),
    }
}

/// `"Menu item '<name>' not found"`.
pub open spec fn item_missing(name: Seq<char>) -> Seq<char> {
    "Menu item '"@ + name + "' not found"@
}

/// `add_submenu_item(menu, item, label, [callback, items, separator, icon])`:
/// a new item last under the first item of that label, in depth-first order.
pub fn add_submenu_item(ui: &mut Ui, args: Vec<Value>) -> (r: Result<Value, String>)
    ensures
        (args.len() < 3 || args.len() > 7) ==> fails_with(r, arity_message("add_submenu_item"@,
            "3-7 arguments (menu_id, menu_item_name, submenu_name, [callback], [children], [separator], [icon])"@,
            args.len() as nat)) && *final(ui) == *old(ui),
        3 <= args.len() <= 7 ==> match (args@[0], args@[1], args@[2]) {
            (Value::String(ms), Value::String(name), Value::String(label)) => if !old(ui).menus@.contains_key(ms@) {
                fails_with(r, "Menu not found"@) && *final(ui) == *old(ui)
            } else {
                let st = old(ui).menus@[ms@];
                if first_item(st.items@, name@) < 0 {
                    fails_with(r, item_missing(name@)) && *final(ui) == *old(ui)
                } else {
                    let st2 = final(ui).menus@[ms@];
                    &&& r == Ok::<Value, String>(Value::Null)
                    &&& final(ui).menus@ == old(ui).menus@.insert(ms@, st2)
                    &&& st2 == (MenuState { items: st2.items, ..st })
                    &&& exists|m: MenuItem| new_item(m, label@, args@, 3, 4, 6,
                        args.len() > 5 && args@[5] is Bool && args@[5]->Bool_0)
                        && items_changed(st.items@, st2.items@, name@, MenuChange::AddSub(m))
                    &&& *final(ui) == (Ui { menus: final(ui).menus, ..*old(ui) })
                }
            },
            (Value::String(_), Value::String(_), _) => fails_with(r, expects("add_submenu_item"@, "a submenu name"@))
                && *final(ui) == *old(ui),
            (Value::String(_), _, _) => fails_with(r, expects("add_submenu_item"@, "a menu item name"@))
                && *final(ui) == *old(ui),
            _ => fails_with(r, expects("add_submenu_item"@, "a menu identifier"@)) && *final(ui) == *old(ui),
        },
{
    if args.len() < 3 || args.len() > 7 {
        return Err(arity_error("add_submenu_item",
            "3-7 arguments (menu_id, menu_item_name, submenu_name, [callback], [children], [separator], [icon])", args.len()));
    }
    let id = match &args[0] {
        Value::String(s) => s,
        _ => return Err(expects_error("add_submenu_item", "a menu identifier")),
    };
    let name = match &args[1] {
        Value::String(s) => s,
        _ => return Err(expects_error("add_submenu_item", "a menu item name")),
    };
    let label = match &args[2] {
        Value::String(s) => s.clone(),
        _ => return Err(expects_error("add_submenu_item", "a submenu name")),
    };
    let callback = opt_copy(&args, 3);
    let children = opt_items(&args, 4);
    let is_separator = if args.len() > 5 {
        match &args[5] {
            Value::Bool(b) => *b,
            _ => false,
        }
    } else {
        false
    };
    let icon = opt_text_arg(&args, 6);
    let slot = match ui.menus.find(id) {
        Some(i) => i,
        None => return Err(text("Menu not found")),
    };
    if find_item(&ui.menus.value_at(slot).items, name).is_none() {
        let mut m = text("Menu item '");
        m.append(name.as_str());
        m.append("' not found");
        return Err(m);
    }
    let item = MenuItem { label, icon, callback, children, is_separator };
    let ghost m = item;
    let st = ui.menus.value_mut(slot);
    let found = change_items(&mut st.items, name, MenuChange::AddSub(item));
    proof {
        assert(new_item(m, args@[2]->String_0@, args@, 3, 4, 6, args.len() > 5 && args@[5] is Bool && args@[5]->Bool_0));
    }
    Ok(Value::Null)
}

/// `set_menu_item_icon(menu, item, icon or null)`: the icon of the first item
/// of that label, in depth-first order.
pub fn set_menu_item_icon(ui: &mut Ui, args: Vec<Value>) -> (r: Result<Value, String>)
    ensures
        args.len() != 3 ==> fails_with(r, "set_menu_item_icon expects 3 arguments: menu_id, menu_item_label, icon"@)
            && *final(ui) == *old(ui),
        args.len() == 3 ==> match (args@[0], args@[1], args@[2]) {
            (Value::String(ms), Value::String(name), Value::String(_)) | (Value::String(ms), Value::String(name), Value::Null) => {
                let icon = if args@[2] is String { Some(args@[2]->String_0) } else { None };
                if !old(ui).menus@.contains_key(ms@) {
                    fails_with(r, "Menu not found"@) && *final(ui) == *old(ui)
                } else {
                    let st = old(ui).menus@[ms@];
                    if first_item(st.items@, name@) < 0 {
                        fails_with(r, "Menu item not found"@) && *final(ui) == *old(ui)
                    } else {
                        let st2 = final(ui).menus@[ms@];
                        &&& r == Ok::<Value, String>(Value::Null)
                        &&& final(ui).menus@ == old(ui).menus@.insert(ms@, st2)
                        &&& st2 == (MenuState { items: st2.items, ..st })
                        &&& items_changed(st.items@, st2.items@, name@, MenuChange::Icon(icon))
                        &&& *final(ui) == (Ui { menus: final(ui).menus, ..*old(ui) })
                    }
                }
            },
            (Value::String(_), Value::String(_), _) => fails_with(r, "icon must be a string or null"@) && *final(ui) == *old(ui),
            (Value::String(_), _, _) => fails_with(r, "menu_item_label must be a string"@) && *final(ui) == *old(ui),
            _ => fails_with(r, "menu_id must be a string"@) && *final(ui) == *old(ui),
        },
{
    if args.len() != 3 {
        return Err(text("set_menu_item_icon expects 3 arguments: menu_id, menu_item_label, icon"));
    }
    let id = match &args[0] {
        Value::String(s) => s,
        _ => return Err(text("menu_id must be a string")),
    };
    let name = match &args[1] {
        Value::String(s) => s,
        _ => return Err(text("menu_item_label must be a string")),
    };
    let icon = match &args[2] {
        Value::String(s) => Some(s.clone()),
        Value::Null => None,
        _ => return Err(text("icon must be a string or null")),
    };
    let slot = match ui.menus.find(id) {
        Some(i) => i,
        None => return Err(text("Menu not found")),
    };
    if find_item(&ui.menus.value_at(slot).items, name).is_none() {
        return Err(text("Menu item not found"));
    }
    let st = ui.menus.value_mut(slot);
    let found = change_items(&mut st.items, name, MenuChange::Icon(icon));
    Ok(Value::Null)
}

/// `get_menu_item_icon(menu, item)`: the icon of the first item of that
/// label, or null.
pub fn get_menu_item_icon(ui: &Ui, args: Vec<Value>) -> (r: Result<Value, String>)
    ensures
        args.len() != 2 ==> fails_with(r, "get_menu_item_icon expects 2 arguments: menu_id, menu_item_label"@),
        args.len() == 2 ==> match (args@[0], args@[1]) {
            (Value::String(ms), Value::String(name)) => if !ui.menus@.contains_key(ms@) {
                fails_with(r, "Menu not found"@)
            } else {
                let items = ui.menus@[ms@].items@;
                let i = first_item(items, name@);
                if i < 0 {
                    fails_with(r, "Menu item not found"@)
                } else {
                    r == Ok::<Value, String>(crate::widgets::optional_text_value(item_found(items[i], name@).icon))
                }
            },
            (Value::String(_), _) => fails_with(r, "menu_item_label must be a string"@),
            _ => fails_with(r, "menu_id must be a string"@),
        },
{
    if args.len() != 2 {
        return Err(text("get_menu_item_icon expects 2 arguments: menu_id, menu_item_label"));
    }
    let id = match &args[0] {
        Value::String(s) => s,
        _ => return Err(text("menu_id must be a string")),
    };
    let name = match &args[1] {
        Value::String(s) => s,
        _ => return Err(text("menu_item_label must be a string")),
    };
    let st = match ui.menus.get(id) {
        Some(st) => st,
        None => return Err(text("Menu not found")),
    };
    match find_item(&st.items, name) {
        Some(i) => {
            proof {
                lemma_first_item(st.items@, name@);
            }
            let item = find_in_item(&st.items[i], name);
            match &item.icon {
                Some(s) => Ok(Value::String(s.clone())),
                None => Ok(Value::Null),
            }
        },
        None => Err(text("Menu item not found")),
    }
}

/// The last entry, in table order, of a menu with more than one item, if any.
pub open spec fn last_long_menu(menus: crate::registry::Registry<MenuState>, n: int) -> int
    decreases n,
{
    if n <= 0 {
        -1
    } else if menus.record_at(n - 1).items@.len() > 1 {
        n - 1
    } else {
        last_long_menu(menus, n - 1)
    }
}

proof fn lemma_last_long_menu(menus: crate::registry::Registry<MenuState>, n: int)
    ensures
        -1 <= last_long_menu(menus, n) < n || (n <= 0 && last_long_menu(menus, n) == -1),
        last_long_menu(menus, n) >= 0 ==> menus.record_at(last_long_menu(menus, n)).items@.len() > 1,
    decreases n,
{
    if n > 0 {
        lemma_last_long_menu(menus, n - 1);
    }
}

/// `add_separator_item()`: a separator at the end of the last menu (in table
/// order) that has more than one item.
pub fn add_separator_item(ui: &mut Ui, args: Vec<Value>) -> (r: Result<Value, String>)
    ensures
        args.len() != 0 ==> fails_with(r, "add_separator_item() does not accept any arguments"@) && *final(ui) == *old(ui),
        args.len() == 0 ==> {
            let k = last_long_menu(old(ui).menus, old(ui).menus.count() as int);
            if k < 0 {
                fails_with(r, "No valid menu found or not enough items to insert a separator"@) && *final(ui) == *old(ui)
            } else {
                let st = old(ui).menus.record_at(k);
                let st2 = final(ui).menus.record_at(k);
                let sep = st2.items@.last();
                &&& r == Ok::<Value, String>(Value::Null)
                &&& final(ui).menus.count() == old(ui).menus.count()
                &&& forall|j: int| 0 <= j < old(ui).menus.count() ==> #[trigger] final(ui).menus.key_at(j) == old(ui).menus.key_at(j)
                &&& forall|j: int| 0 <= j < old(ui).menus.count() && j != k ==> #[trigger] final(ui).menus.record_at(j)
                    == old(ui).menus.record_at(j)
                &&& st2 == (MenuState { items: st2.items, ..st })
                &&& st2.items@.drop_last() == st.items@
                &&& st2.items@.len() == st.items@.len() + 1
                &&& sep.label@ == Seq::<char>::empty() && sep.icon is None && sep.callback is None
                &&& sep.children@.len() == 0 && sep.is_separator
                &&& *final(ui) == (Ui { menus: final(ui).menus, ..*old(ui) })
            }
        },
{
    if args.len() != 0 {
        return Err(text("add_separator_item() does not accept any arguments"));
    }
    let n = ui.menus.entry_count();
    let mut i: usize = n;
    while i > 0 && ui.menus.record(i - 1).items.len() <= 1
        invariant
            i <= n,
            n == ui.menus.count(),
            last_long_menu(ui.menus, n as int) == last_long_menu(ui.menus, i as int),
        decreases i,
    {
        i = i - 1;
    }
    proof {
        lemma_last_long_menu(ui.menus, n as int);
    }
    if i == 0 {
        return Err(text("No valid menu found or not enough items to insert a separator"));
    }
    let st = ui.menus.record_mut(i - 1);
    let ghost before = st.items@;
    st.items.push(MenuItem { label: String::new(), icon: None, callback: None, children: Vec::new(), is_separator: true });
    proof {
        assert(st.items@.drop_last() =~= before);
    }
    Ok(Value::Null)
}

} // verus!
