//! Tree views: nodes found by identifier anywhere in the tree (the first one
//! in depth-first order), changed in place, and read back as values.

use vstd::prelude::*;
use crate::text::{arity_message, fails_with, text, arity_error};
use crate::ui::{ControlSettings, TreeNode, TreeViewState, Ui};
use crate::text::same_text;
use crate::value::{take_three, take_two, Dict, Value};
use crate::ui::{expects_error};
use crate::render::{debug_form, debug_string, number_texts, writes_numbers};
use crate::widgets::optional_text_value;
use crate::widgets::id_arg;

verus! {

/// The node `n` or a node under it has the identifier `t`.
pub open spec fn node_holds(n: TreeNode, t: Seq<char>) -> bool
    decreases n,
{
    n.id@ == t || first_index(n.children@, t) >= 0
}

/// The index of the first node of `ns` that holds `t`, or -1.
pub open spec fn first_index(ns: Seq<TreeNode>, t: Seq<char>) -> int
    decreases ns,
{
    if ns.len() == 0 {
        -1
    } else if node_holds(ns[0], t) {
        0
    } else {
        let k = first_index(ns.subrange(1, ns.len() as int), t);
        if k < 0 {
            -1
        } else {
            k + 1
        }
    }
}

/// Where the first node that holds `t` stands: within the forest, holding
/// `t`, after nodes that do not.
pub proof fn lemma_first_index(ns: Seq<TreeNode>, t: Seq<char>)
    ensures
        -1 <= first_index(ns, t) < ns.len(),
        first_index(ns, t) >= 0 ==> node_holds(ns[first_index(ns, t)], t),
        forall|j: int| 0 <= j < ns.len() && (first_index(ns, t) < 0 || j < first_index(ns, t)) ==> !#[trigger] node_holds(ns[j], t),
    decreases ns.len(),
{
    if ns.len() > 0 {
        let rest = ns.subrange(1, ns.len() as int);
        lemma_first_index(rest, t);
        assert forall|j: int| 0 <= j < ns.len() && (first_index(ns, t) < 0 || j < first_index(ns, t)) implies !#[trigger] node_holds(ns[j], t) by {
            if j > 0 {
                assert(ns[j] == rest[j - 1]);
            }
        }
        if first_index(ns, t) > 0 {
            assert(ns[first_index(ns, t)] == rest[first_index(ns, t) - 1]);
        }
    }
}

/// A change to one node.
pub enum NodeChange {
    Icon(Option<String>),
    Checkbox(Option<bool>),
    /// A new node under it, last among its children, with this identifier
    /// and text.
    AddLeaf(String, String),
}

/// `c` is a new node: this identifier and text, no children, folded, no
/// icon, no checkbox.
pub open spec fn is_leaf(c: TreeNode, id: Seq<char>, txt: Seq<char>) -> bool {
    &&& c.id@ == id
    &&& c.text@ == txt
    &&& c.children@.len() == 0
    &&& !c.expanded
    &&& c.icon is None
    &&& c.checkbox is None
}

/// `a` is the node `n` after the change.
pub open spec fn changed_to(n: TreeNode, a: TreeNode, ch: NodeChange) -> bool {
    match ch {
        NodeChange::Icon(i) => a == TreeNode { icon: i, ..n },
        NodeChange::Checkbox(c) => a == TreeNode { checkbox: c, ..n },
        NodeChange::AddLeaf(id, txt) => {
            &&& a == TreeNode { children: a.children, ..n }
            &&& a.children@.len() == n.children@.len() + 1
            &&& a.children@.drop_last() == n.children@
            &&& is_leaf(a.children@.last(), id@, txt@)
        },
    }
}

/// `a` is `b` with the change made to the first node of identifier `t`, in
/// depth-first order.
pub open spec fn node_changed(b: TreeNode, a: TreeNode, t: Seq<char>, ch: NodeChange) -> bool
    decreases b,
{
    if b.id@ == t {
        changed_to(b, a, ch)
    } else {
        let i = first_index(b.children@, t);
        &&& a == TreeNode { children: a.children, ..b }
        &&& a.children@.len() == b.children@.len()
        &&& 0 <= i < b.children@.len()
        &&& forall|j: int| 0 <= j < b.children@.len() && j != i ==> a.children@[j] == b.children@[j]
        &&& node_changed(b.children@[i], a.children@[i], t, ch)
    }
}

/// The forest `a` is `b` with the change made to the first node of identifier
/// `t`, in depth-first order.
pub open spec fn forest_changed(b: Seq<TreeNode>, a: Seq<TreeNode>, t: Seq<char>, ch: NodeChange) -> bool {
    let i = first_index(b, t);
    &&& a.len() == b.len()
    &&& 0 <= i < b.len()
    &&& forall|j: int| 0 <= j < b.len() && j != i ==> a[j] == b[j]
    &&& node_changed(b[i], a[i], t, ch)
}

/// A new node with this identifier and text.
fn leaf(id: &String, txt: &String) -> (c: TreeNode)
    ensures
        is_leaf(c, id@, txt@),
{
    TreeNode { id: id.clone(), text: txt.clone(), children: Vec::new(), expanded: false, icon: None, checkbox: None }
}

/// Whether the node or a node under it has the identifier `t`.
fn node_has(n: &TreeNode, t: &String) -> (r: bool)
    ensures
        r == node_holds(*n, t@),
    decreases *n,
{
    if n.id == *t {
        return true;
    }
    find_holder(&n.children, t).is_some()
}

/// The index of the first node of the forest that holds `t`, if any.
fn find_holder(ns: &Vec<TreeNode>, t: &String) -> (r: Option<usize>)
    ensures
        match r {
            Some(i) => i == first_index(ns@, t@),
            None => first_index(ns@, t@) == -1,
        },
    decreases *ns,
{
    let n = ns.len();
    let mut i: usize = 0;
    proof {
        assert(ns@.subrange(0, n as int) =~= ns@);
        lemma_first_index(ns@, t@);
    }
    while i < n
        invariant
            n == ns@.len(),
            i <= n,
            first_index(ns@, t@) == if first_index(ns@.subrange(i as int, n as int), t@) < 0 {
                -1
            } else {
                first_index(ns@.subrange(i as int, n as int), t@) + i
            },
        decreases n - i,
    {
        proof {
            broadcast use vstd::std_specs::vec::axiom_vec_index_decreases;
            assert(decreases_to!(*ns => ns[i as int]));
            let s = ns@.subrange(i as int, n as int);
            assert(s.subrange(1, s.len() as int) =~= ns@.subrange(i + 1, n as int));
            assert(s[0] == ns@[i as int]);
        }
        if node_has(&ns[i], t) {
            return Some(i);
        }
        i = i + 1;
    }
    None
}

/// Makes the change to the first node of identifier `t`, in a node that holds it.
fn change_node(n: &mut TreeNode, t: &String, ch: &NodeChange)
    requires
        node_holds(*old(n), t@),
    ensures
        node_changed(*old(n), *final(n), t@, *ch),
    decreases *old(n),
{
    if n.id == *t {
        match ch {
            NodeChange::Icon(i) => {
                n.icon = match i {
                    Some(s) => Some(s.clone()),
                    None => None,
                };
            },
            NodeChange::Checkbox(c) => {
                n.checkbox = *c;
            },
            NodeChange::AddLeaf(id, txt) => {
                let ghost before = n.children@;
                n.children.push(leaf(id, txt));
                proof {
                    assert(n.children@.drop_last() =~= before);
                }
            },
        }
        return;
    }
    let found = change_forest(&mut n.children, t, ch);
    proof {
        assert(found);
    }
}

/// Makes the change to the first node of identifier `t` in the forest, and
/// says whether there was one; without one the forest stays as it was.
fn change_forest(ns: &mut Vec<TreeNode>, t: &String, ch: &NodeChange) -> (found: bool)
    ensures
        found == (first_index(old(ns)@, t@) >= 0),
        found ==> forest_changed(old(ns)@, final(ns)@, t@, *ch),
        !found ==> *final(ns) == *old(ns),
    decreases *old(ns),
{
    match find_holder(ns, t) {
        Some(i) => {
            proof {
                broadcast use vstd::std_specs::vec::axiom_vec_index_decreases;
                lemma_first_index(ns@, t@);
                assert(decreases_to!(*old(ns) => old(ns)[i as int]));
            }
            let ghost before = ns@;
            let node = &mut ns[i];
            change_node(node, t, ch);
            true
        },
        None => false,
    }
}

/// The first node of identifier `t` in depth-first order, in a node that holds it.
pub open spec fn node_found(n: TreeNode, t: Seq<char>) -> TreeNode
    decreases n,
{
    if n.id@ == t {
        n
    } else {
        let i = first_index(n.children@, t);
        if 0 <= i < n.children@.len() {
            node_found(n.children@[i], t)
        } else {
            n
        }
    }
}

/// The first node of identifier `t` in a node that holds it.
fn find_in_node<'a>(n: &'a TreeNode, t: &String) -> (r: &'a TreeNode)
    requires
        node_holds(*n, t@),
    ensures
        *r == node_found(*n, t@),
    decreases *n,
{
    if n.id == *t {
        return n;
    }
    match find_holder(&n.children, t) {
        Some(i) => {
            proof {
                broadcast use vstd::std_specs::vec::axiom_vec_index_decreases;
                lemma_first_index(n.children@, t@);
                assert(decreases_to!(*n => n.children[i as int]));
            }
            find_in_node(&n.children[i], t)
        },
        None => n,
    }
}

/// A checkbox state as a value: the flag, or null.
pub open spec fn optional_flag_value(c: Option<bool>) -> Value {
    match c {
        Some(b) => Value::Bool(b),
        None => Value::Null,
    }
}

/// `v` is the dictionary of the node `n`: its identifier, text, whether it is
/// expanded, its icon and checkbox (or null), and the dictionaries of its
/// children, in that order.
pub open spec fn node_value(n: TreeNode, v: Value) -> bool
    decreases n,
{
    &&& v matches Value::Dictionary(d)
    &&& d.pairs().len() == 6
    &&& d.pairs()[0] == ("id"@, Value::String(n.id))
    &&& d.pairs()[1] == ("text"@, Value::String(n.text))
    &&& d.pairs()[2] == ("expanded"@, Value::Bool(n.expanded))
    &&& d.pairs()[3] == ("icon"@, optional_text_value(n.icon))
    &&& d.pairs()[4] == ("checkbox"@, optional_flag_value(n.checkbox))
    &&& d.pairs()[5].0 == "children"@
    &&& d.pairs()[5].1 matches Value::Array(cs)
    &&& forest_values(n.children@, cs@)
}

/// Each value of `cs` is the dictionary of the node of `ns` at its index.
pub open spec fn forest_values(ns: Seq<TreeNode>, cs: Seq<Value>) -> bool
    decreases ns,
{
    &&& ns.len() == cs.len()
    &&& ns.len() > 0 ==> {
        &&& forest_values(ns.subrange(0, ns.len() - 1), cs.subrange(0, cs.len() - 1))
        &&& node_value(ns[ns.len() - 1], cs[cs.len() - 1])
    }
}

/// The keys of a node's dictionary differ from one another.
proof fn lemma_node_keys()
    ensures
        "id"@ != "text"@,
        "id"@ != "expanded"@ && "text"@ != "expanded"@,
        "id"@ != "icon"@ && "text"@ != "icon"@ && "expanded"@ != "icon"@,
        "id"@ != "checkbox"@ && "text"@ != "checkbox"@ && "expanded"@ != "checkbox"@ && "icon"@ != "checkbox"@,
        "id"@ != "children"@ && "text"@ != "children"@ && "expanded"@ != "children"@ && "icon"@ != "children"@
            && "checkbox"@ != "children"@,
{
    reveal_strlit("id");
    reveal_strlit("text");
    reveal_strlit("expanded");
    reveal_strlit("icon");
    reveal_strlit("checkbox");
    reveal_strlit("children");
    assert("id"@.len() == 2 && "text"@.len() == 4 && "expanded"@.len() == 8 && "icon"@.len() == 4
        && "checkbox"@.len() == 8 && "children"@.len() == 8);
    assert("text"@[0] != "icon"@[0]);
    assert("expanded"@[0] != "checkbox"@[0]);
    assert("expanded"@[0] != "children"@[0]);
    assert("checkbox"@[2] != "children"@[2]);
}

/// The dictionary of a node.
fn node_to_value(n: &TreeNode) -> (v: Value)
    ensures
        node_value(*n, v),
    decreases *n,
{
    let mut cs: Vec<Value> = Vec::new();
    let mut i: usize = 0;
    proof {
        assert(n.children@.subrange(0, 0) =~= Seq::<TreeNode>::empty());
    }
    while i < n.children.len()
        invariant
            i <= n.children@.len(),
            cs@.len() == i,
            forest_values(n.children@.subrange(0, i as int), cs@),
        decreases n.children@.len() - i,
    {
        proof {
            broadcast use vstd::std_specs::vec::axiom_vec_index_decreases;
            assert(decreases_to!(*n => n.children[i as int]));
        }
        let c = node_to_value(&n.children[i]);
        let ghost before = cs@;
        cs.push(c);
        proof {
            let ns = n.children@.subrange(0, i + 1);
            assert(ns.subrange(0, ns.len() - 1) =~= n.children@.subrange(0, i as int));
            assert(cs@.subrange(0, cs@.len() - 1) =~= before);
            assert(ns[ns.len() - 1] == n.children@[i as int]);
        }
        i = i + 1;
    }
    proof {
        lemma_node_keys();
    }
    let mut d = Dict::new();
    let ghost p0 = d.pairs();
    d.insert(text("id"), Value::String(n.id.clone()));
    let ghost p1 = d.pairs();
    proof {
        crate::value::lemma_key_position_range(p0, "id"@);
        assert(p1 == seq![("id"@, Value::String(n.id))]);
    }
    d.insert(text("text"), Value::String(n.text.clone()));
    let ghost p2 = d.pairs();
    proof {
        crate::value::lemma_key_position_range(p1, "text"@);
        assert(crate::value::key_position(p1, "text"@) == -1);
        assert(p2 == p1.push(("text"@, Value::String(n.text))));
    }
    d.insert(text("expanded"), Value::Bool(n.expanded));
    let ghost p3 = d.pairs();
    proof {
        crate::value::lemma_key_position_range(p2, "expanded"@);
        assert(p3 == p2.push(("expanded"@, Value::Bool(n.expanded))));
    }
    d.insert(
        text("icon"),
        match &n.icon {
            Some(s) => Value::String(s.clone()),
            None => Value::Null,
        },
    );
    let ghost p4 = d.pairs();
    proof {
        crate::value::lemma_key_position_range(p3, "icon"@);
        assert(p4 == p3.push(("icon"@, optional_text_value(n.icon))));
    }
    d.insert(
        text("checkbox"),
        match n.checkbox {
            Some(b) => Value::Bool(b),
            None => Value::Null,
        },
    );
    let ghost p5 = d.pairs();
    proof {
        crate::value::lemma_key_position_range(p4, "checkbox"@);
        assert(p5 == p4.push(("checkbox"@, optional_flag_value(n.checkbox))));
        crate::value::lemma_key_position_range(p5, "children"@);
    }
    let ghost kids = cs@;
    d.insert(text("children"), Value::Array(cs));
    proof {
        let p6 = d.pairs();
        assert(p6.len() == 6);
        assert(p6[5].0 == "children"@);
        assert(p6[5].1 matches Value::Array(c2) && c2@ == kids);
        assert(n.children@.subrange(0, n.children@.len() as int) =~= n.children@);
    }
    Value::Dictionary(d)
}

/// The tree view of the first argument of a call, if the call names one.
pub open spec fn named_tree(ui: Ui, args: Seq<Value>) -> Option<TreeViewState> {
    if args.len() >= 1 && args[0] is String && ui.treeviews@.contains_key(id_arg(args)) {
        Some(ui.treeviews@[id_arg(args)])
    } else {
        None
    }
}

/// The result and effect of a change to one node of a tree view.
pub open spec fn node_change_effect(
    before: Ui,
    after: Ui,
    id: Seq<char>,
    node: Seq<char>,
    ch: NodeChange,
    r: Result<Value, String>,
) -> bool {
    if !before.treeviews@.contains_key(id) {
        fails_with(r, "TreeView not found"@) && after == before
    } else {
        let tv = before.treeviews@[id];
        if first_index(tv.nodes@, node) < 0 {
            fails_with(r, "Node not found"@) && after == before
        } else {
            let tw = after.treeviews@[id];
            &&& r == Ok::<Value, String>(Value::Null)
            &&& after.treeviews@ == before.treeviews@.insert(id, tw)
            &&& tw == (TreeViewState { nodes: tw.nodes, ..tv })
            &&& forest_changed(tv.nodes@, tw.nodes@, node, ch)
            &&& after == (Ui { treeviews: after.treeviews, ..before })
        }
    }
}

fn change_tree(ui: &mut Ui, id: &String, node: &String, ch: NodeChange) -> (r: Result<Value, String>)
    ensures
        node_change_effect(*old(ui), *final(ui), id@, node@, ch, r),
{
    match ui.treeviews.find(id) {
        Some(i) => {
            if find_holder(&ui.treeviews.value_at(i).nodes, node).is_none() {
                return Err(text("Node not found"));
            }
            let tv = ui.treeviews.value_mut(i);
            change_forest(&mut tv.nodes, node, &ch);
            Ok(Value::Null)
        },
        None => Err(text("TreeView not found")),
    }
}

/// What `treeview_set_node_icon` does.
pub open spec fn icon_set(before: Ui, after: Ui, args: Seq<Value>, r: Result<Value, String>) -> bool {
    &&& (args.len() != 3 ==> fails_with(r, arity_message("treeview_set_node_icon"@,
                "3 arguments (treeview_id, node_id, icon_path)"@, args.len() as nat)) && after == before)
    &&& (args.len() == 3 ==> match (args[0], args[1], args[2]) {
                (Value::String(id), Value::String(node), Value::String(p)) =>
                    node_change_effect(before, after, id@, node@, NodeChange::Icon(Some(p)), r),
                (Value::String(id), Value::String(node), Value::Null) =>
                    node_change_effect(before, after, id@, node@, NodeChange::Icon(None), r),
                (Value::String(_), Value::String(_), _) => fails_with(r, "icon_path must be a string or null"@)
                    && after == before,
                (Value::String(_), _, _) => fails_with(r, "node_id must be a string"@) && after == before,
                _ => fails_with(r, "treeview_id must be a string"@) && after == before
            })
}

/// `treeview_set_node_icon(tree, node, path or null)`: the icon of the first
/// node of that identifier, at any depth.
pub fn treeview_set_node_icon(ui: &mut Ui, args: Vec<Value>) -> (r: Result<Value, String>)
    ensures
        icon_set(*old(ui), *final(ui), args@, r),
{
    if args.len() != 3 {
        return Err(arity_error("treeview_set_node_icon", "3 arguments (treeview_id, node_id, icon_path)", args.len()));
    }
    let (a, b, c) = take_three(args);
    let id = match a {
        Value::String(s) => s,
        _ => return Err(text("treeview_id must be a string")),
    };
    let node = match b {
        Value::String(s) => s,
        _ => return Err(text("node_id must be a string")),
    };
    let icon = match c {
        Value::String(s) => Some(s),
        Value::Null => None,
        _ => return Err(text("icon_path must be a string or null")),
    };
    change_tree(ui, &id, &node, NodeChange::Icon(icon))
}

/// `treeview_set_node_checkbox(tree, node, flag or null)`: the checkbox of
/// the first node of that identifier, at any depth.
pub fn treeview_set_node_checkbox(ui: &mut Ui, args: Vec<Value>) -> (r: Result<Value, String>)
    ensures
        args.len() != 3 ==> fails_with(r, arity_message("treeview_set_node_checkbox"@,
            "3 arguments (treeview_id, node_id, checked)"@, args.len() as nat)) && *final(ui) == *old(ui),
        args.len() == 3 ==> match (args@[0], args@[1], args@[2]) {
            (Value::String(id), Value::String(node), Value::Bool(b)) =>
                node_change_effect(*old(ui), *final(ui), id@, node@, NodeChange::Checkbox(Some(b)), r),
            (Value::String(id), Value::String(node), Value::Null) =>
                node_change_effect(*old(ui), *final(ui), id@, node@, NodeChange::Checkbox(None), r),
            (Value::String(_), Value::String(_), _) => fails_with(r, "checked must be a boolean or null"@)
                && *final(ui) == *old(ui),
            (Value::String(_), _, _) => fails_with(r, "node_id must be a string"@) && *final(ui) == *old(ui),
            _ => fails_with(r, "treeview_id must be a string"@) && *final(ui) == *old(ui),
        },
{
    if args.len() != 3 {
        return Err(arity_error("treeview_set_node_checkbox", "3 arguments (treeview_id, node_id, checked)", args.len()));
    }
    let id = match &args[0] {
        Value::String(s) => s,
        _ => return Err(text("treeview_id must be a string")),
    };
    let node = match &args[1] {
        Value::String(s) => s,
        _ => return Err(text("node_id must be a string")),
    };
    let checked = match &args[2] {
        Value::Bool(b) => Some(*b),
        Value::Null => None,
        _ => return Err(text("checked must be a boolean or null")),
    };
    change_tree(ui, id, node, NodeChange::Checkbox(checked))
}

/// `treeview_set_selected(tree, node)`.
pub fn treeview_set_selected(ui: &mut Ui, args: Vec<Value>) -> (r: Result<Value, String>)
    ensures
        args.len() != 2 ==> fails_with(r, arity_message("treeview_set_selected"@, "2 arguments"@, args.len() as nat))
            && *final(ui) == *old(ui),
        args.len() == 2 ==> match (args@[0], args@[1]) {
            (Value::String(id), Value::String(node)) => if old(ui).treeviews@.contains_key(id@) {
                &&& r == Ok::<Value, String>(Value::Null)
                &&& final(ui).treeviews@ == old(ui).treeviews@.insert(
                    id@,
                    TreeViewState { selected_node: Some(node), ..old(ui).treeviews@[id@] },
                )
                &&& *final(ui) == (Ui { treeviews: final(ui).treeviews, ..*old(ui) })
            } else {
                fails_with(r, "TreeView not found"@) && *final(ui) == *old(ui)
            },
            (Value::String(_), _) => fails_with(r, "node_id must be a string"@) && *final(ui) == *old(ui),
            _ => fails_with(r, "treeview_id must be a string"@) && *final(ui) == *old(ui),
        },
{
    if args.len() != 2 {
        return Err(arity_error("treeview_set_selected", "2 arguments", args.len()));
    }
    let (a, b) = take_two(args);
    let id = match a {
        Value::String(s) => s,
        _ => return Err(text("treeview_id must be a string")),
    };
    let node = match b {
        Value::String(s) => s,
        _ => return Err(text("node_id must be a string")),
    };
    match ui.treeviews.find(&id) {
        Some(i) => {
            let tv = ui.treeviews.value_mut(i);
            tv.selected_node = Some(node);
            Ok(Value::Null)
        },
        None => Err(text("TreeView not found")),
    }
}

/// `treeview_get_selected(tree)`: the identifier of the node selected, or null.
pub fn treeview_get_selected(ui: &Ui, args: Vec<Value>) -> (r: Result<Value, String>)
    ensures
        args.len() != 1 ==> fails_with(r, arity_message("treeview_get_selected"@, "1 argument"@, args.len() as nat)),
        args.len() == 1 ==> match args@[0] {
            Value::String(id) => if ui.treeviews@.contains_key(id@) {
                r == Ok::<Value, String>(optional_text_value(ui.treeviews@[id@].selected_node))
            } else {
                fails_with(r, "TreeView not found"@)
            },
            _ => fails_with(r, "treeview_id must be a string"@),
        },
{
    if args.len() != 1 {
        return Err(arity_error("treeview_get_selected", "1 argument", args.len()));
    }
    let id = match &args[0] {
        Value::String(s) => s,
        _ => return Err(text("treeview_id must be a string")),
    };
    match ui.treeviews.get(id) {
        Some(tv) => match &tv.selected_node {
            Some(s) => Ok(Value::String(s.clone())),
            None => Ok(Value::Null),
        },
        None => Err(text("TreeView not found")),
    }
}

/// What `treeview_get_node` gives.
pub open spec fn node_read(ui: Ui, args: Seq<Value>, r: Result<Value, String>, nt: spec_fn(u64) -> (Seq<char>, Seq<char>)) -> bool {
    &&& (args.len() != 2 ==> fails_with(r, arity_message("treeview_get_node"@, "2 arguments (treeview_id, node_id)"@,
                args.len() as nat)))
    &&& (args.len() == 2 ==> match (args[0], args[1]) {
                (Value::String(id), Value::String(node)) => if !ui.treeviews@.contains_key(id@) {
                    fails_with(r, "TreeView not found for id '"@ + id@ + "'"@)
                } else {
                    let ns = ui.treeviews@[id@].nodes@;
                    let i = first_index(ns, node@);
                    if i < 0 {
                        fails_with(r, "Node '"@ + node@ + "' not found"@)
                    } else {
                        r matches Ok(v) && node_value(node_found(ns[i], node@), v)
                    }
                },
                (Value::String(_), other) => fails_with(
                    r,
                    "treeview_get_node(): second argument must be a string (node_id), got "@ + debug_form(other, nt),
                ),
                (other, _) => fails_with(
                    r,
                    "treeview_get_node(): first argument must be a string (treeview_id), got "@ + debug_form(other, nt),
                )
            })
}

/// `treeview_get_node(tree, node)`: the dictionary of the first node of that
/// identifier, at any depth.
pub fn treeview_get_node<F: Fn(u64) -> (String, String)>(ui: &Ui, args: Vec<Value>, decimals: &F) -> (r: Result<
    Value,
    String,
>)
    requires
        writes_numbers(*decimals),
    ensures
        node_read(*ui, args@, r, number_texts(*decimals)),
{
    if args.len() != 2 {
        return Err(arity_error("treeview_get_node", "2 arguments (treeview_id, node_id)", args.len()));
    }
    let id = match &args[0] {
        Value::String(s) => s,
        other => {
            let mut m = text("treeview_get_node(): first argument must be a string (treeview_id), got ");
            let d = debug_string(other, decimals);
            m.append(d.as_str());
            return Err(m);
        },
    };
    let node = match &args[1] {
        Value::String(s) => s,
        other => {
            let mut m = text("treeview_get_node(): second argument must be a string (node_id), got ");
            let d = debug_string(other, decimals);
            m.append(d.as_str());
            return Err(m);
        },
    };
    let tv = match ui.treeviews.get(id) {
        Some(tv) => tv,
        None => {
            let mut m = text("TreeView not found for id '");
            m.append(id.as_str());
            m.append("'");
            return Err(m);
        },
    };
    match find_holder(&tv.nodes, node) {
        Some(i) => {
            proof {
                lemma_first_index(tv.nodes@, node@);
            }
            let found = find_in_node(&tv.nodes[i], node);
            Ok(node_to_value(found))
        },
        None => {
            let mut m = text("Node '");
            m.append(node.as_str());
            m.append("' not found");
            Err(m)
        },
    }
}

/// `set_treeview_on_event(tree, event, callback or null)`: what the tree view
/// calls on that event; null calls nothing.
pub fn set_treeview_on_event(ui: &mut Ui, args: Vec<Value>) -> (r: Result<Value, String>)
    ensures
        args.len() != 3 ==> fails_with(r, arity_message("set_treeview_on_event"@,
            "3 arguments (treeview_id, event_type, callback)"@, args.len() as nat)) && *final(ui) == *old(ui),
        args.len() == 3 ==> match (args@[0], args@[1]) {
            (Value::String(id), Value::String(event)) => if !old(ui).controls@.contains_key(id@) {
                fails_with(r, "TreeView not found"@) && *final(ui) == *old(ui)
            } else if old(ui).controls@[id@].control_type@ != "treeview"@ {
                fails_with(r, "Control is not a TreeView"@) && *final(ui) == *old(ui)
            } else {
                let c = final(ui).controls@[id@];
                &&& r == Ok::<Value, String>(Value::Null)
                &&& final(ui).controls@ == old(ui).controls@.insert(id@, c)
                &&& c == (ControlSettings { treeview_on_events: c.treeview_on_events, ..old(ui).controls@[id@] })
                &&& c.treeview_on_events@ == old(ui).controls@[id@].treeview_on_events@.insert(
                    event@,
                    if args@[2] is Null { None } else { Some(args@[2]) },
                )
                &&& *final(ui) == old(ui).with_controls(final(ui).controls)
            },
            (Value::String(_), _) => fails_with(r, "event_type must be a string"@) && *final(ui) == *old(ui),
            _ => fails_with(r, "treeview_id must be a string"@) && *final(ui) == *old(ui),
        },
{
    if args.len() != 3 {
        return Err(arity_error("set_treeview_on_event", "3 arguments (treeview_id, event_type, callback)", args.len()));
    }
    let (a, b, c) = take_three(args);
    let id = match a {
        Value::String(s) => s,
        _ => return Err(text("treeview_id must be a string")),
    };
    let event = match b {
        Value::String(s) => s,
        _ => return Err(text("event_type must be a string")),
    };
    let callback = match c {
        Value::Null => None,
        other => Some(other),
    };
    match ui.controls.find(&id) {
        Some(i) => {
            if !same_text(&ui.controls.value_at(i).control_type, "treeview") {
                return Err(text("Control is not a TreeView"));
            }
            let ctl = ui.controls.value_mut(i);
            ctl.treeview_on_events.insert(event, callback);
            Ok(Value::Null)
        },
        None => Err(text("TreeView not found")),
    }
}

/// What `treeview_add_node` does.
pub open spec fn node_added(before: Ui, after: Ui, args: Seq<Value>, r: Result<Value, String>) -> bool {
    &&& ((args.len() < 2 || args.len() > 3) ==> fails_with(r, arity_message("treeview_add_node"@,
                "2-3 arguments (treeview_id, text, [parent_id])"@, args.len() as nat)) && after == before)
    &&& (2 <= args.len() <= 3 ==> match (args[0], args[1]) {
                (Value::String(ids), Value::String(txt)) => if !before.treeviews@.contains_key(ids@) {
                    fails_with(r, "TreeView not found"@) && after == before
                } else {
                    let tv = before.treeviews@[ids@];
                    let tw = after.treeviews@[ids@];
                    let parent = if args.len() == 3 && args[2] is String { Some(args[2]->String_0@) } else { None };
                    if parent matches Some(p) && first_index(tv.nodes@, p) < 0 {
                        fails_with(r, "Parent node not found"@) && after == before
                    } else {
                        &&& r matches Ok(Value::String(nid)) && crate::create::is_uuid_text(nid@) && match parent {
                            Some(p) => forest_changed(tv.nodes@, tw.nodes@, p, NodeChange::AddLeaf(nid, txt)),
                            None => tw.nodes@.len() == tv.nodes@.len() + 1 && tw.nodes@.drop_last() == tv.nodes@
                                && is_leaf(tw.nodes@.last(), nid@, txt@),
                        }
                        &&& after.treeviews@ == before.treeviews@.insert(ids@, tw)
                        &&& tw == (TreeViewState { nodes: tw.nodes, ..tv })
                        &&& after == (Ui { treeviews: after.treeviews, ..before })
                    }
                },
                (Value::String(_), _) => fails_with(r, "text must be a string"@) && after == before,
                _ => fails_with(r, "treeview_id must be a string"@) && after == before
            })
}

/// `treeview_add_node(tree, text, [parent])`: a new node under a fresh
/// identifier, which comes back: last under the first node of identifier
/// `parent`, or last among the top nodes when no parent text is given.
pub fn treeview_add_node(ui: &mut Ui, args: Vec<Value>) -> (r: Result<Value, String>)
    ensures
        node_added(*old(ui), *final(ui), args@, r),
{
    if args.len() < 2 || args.len() > 3 {
        return Err(arity_error("treeview_add_node", "2-3 arguments (treeview_id, text, [parent_id])", args.len()));
    }
    let id = match &args[0] {
        Value::String(s) => s,
        _ => return Err(text("treeview_id must be a string")),
    };
    let txt = match &args[1] {
        Value::String(s) => s,
        _ => return Err(text("text must be a string")),
    };
    let parent: Option<&String> = if args.len() == 3 {
        match &args[2] {
            Value::String(s) => Some(s),
            _ => None,
        }
    } else {
        None
    };
    let slot = match ui.treeviews.find(id) {
        Some(i) => i,
        None => return Err(text("TreeView not found")),
    };
    let nid = crate::create::new_identifier();
    match parent {
        Some(p) => {
            if find_holder(&ui.treeviews.value_at(slot).nodes, p).is_none() {
                return Err(text("Parent node not found"));
            }
            let tv = ui.treeviews.value_mut(slot);
            let found = change_forest(&mut tv.nodes, p, &NodeChange::AddLeaf(nid.clone(), txt.clone()));
        },
        None => {
            let tv = ui.treeviews.value_mut(slot);
            let ghost before = tv.nodes@;
            tv.nodes.push(leaf(&nid, txt));
            proof {
                assert(tv.nodes@.drop_last() =~= before);
            }
        },
    }
    Ok(Value::String(nid))
}

} // verus!
