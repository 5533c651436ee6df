//! Where controls and forms stand: positions, the constraints that place a
//! control next to another one, padding and margins.

use vstd::prelude::*;
use crate::single::{narrows_to, number_to_single, single_to_number, widens_to};
use crate::text::{arity_error, arity_message, fails_with, text};
use crate::ui::{expects, expects_error, ControlSettings, FormSettings, LayoutConstraint, Ui};
use crate::value::Value;

verus! {

/// The `f32` bit pattern of 1.0, the default space between related controls.
pub const SPACE_DEFAULT: u32 = 0x3f80_0000;

/// Which side of its target a control goes to.
#[derive(Clone, Copy, Debug, PartialEq, Eq, Structural)]
pub enum Side {
    LeftOf,
    RightOf,
    Above,
    Below,
}

/// The constraint that puts a control on `side` of `target`.
pub open spec fn side_constraint(side: Side, target: String, space: u32) -> LayoutConstraint {
    match side {
        Side::LeftOf => LayoutConstraint::LeftOf { target_id: target, space },
        Side::RightOf => LayoutConstraint::RightOf { target_id: target, space },
        Side::Above => LayoutConstraint::Above { target_id: target, space },
        Side::Below => LayoutConstraint::Below { target_id: target, space },
    }
}

fn make_constraint(side: Side, target: String, space: u32) -> (c: LayoutConstraint)
    ensures
        c == side_constraint(side, target, space),
{
    match side {
        Side::LeftOf => LayoutConstraint::LeftOf { target_id: target, space },
        Side::RightOf => LayoutConstraint::RightOf { target_id: target, space },
        Side::Above => LayoutConstraint::Above { target_id: target, space },
        Side::Below => LayoutConstraint::Below { target_id: target, space },
    }
}

/// The space that a call to place a control gives: its third argument as a
/// single when that is a number, else 1.0.
pub open spec fn space_given(args: Seq<Value>, space: u32) -> bool {
    if args.len() == 3 && args[2] is Number {
        args[2] matches Value::Number(n) && narrows_to(n, space)
    } else {
        space == SPACE_DEFAULT
    }
}

/// The result and effect of `set_left`, `set_right`, `set_above` and `set_below`.
pub open spec fn placed(before: Ui, after: Ui, args: Seq<Value>, name: Seq<char>, side: Side, r: Result<Value, String>) -> bool {
    if args.len() < 2 || args.len() > 3 {
        fails_with(r, arity_message(name, "2-3 arguments (control_id, target_id, [space])"@, args.len()))
            && after == before
    } else {
        match (args[0], args[1]) {
            (Value::String(id), Value::String(target)) => if !before.controls@.contains_key(target@) {
                fails_with(r, "Target control not found"@) && after == before
            } else if !before.controls@.contains_key(id@) {
                fails_with(r, "Control not found"@) && after == before
            } else {
                let c = after.controls@[id@];
                &&& r == Ok::<Value, String>(Value::Null)
                &&& after.controls@ == before.controls@.insert(id@, c)
                &&& c.layout_constraint matches Some(lc) && (exists|space: u32|
                    space_given(args, space) && lc == side_constraint(side, target, space))
                &&& c == (ControlSettings { layout_constraint: c.layout_constraint, ..before.controls@[id@] })
                &&& after == before.with_controls(after.controls)
            },
            (Value::String(_), _) => fails_with(r, expects(name, "a target control identifier"@)) && after == before,
            _ => fails_with(r, expects(name, "a control identifier"@)) && after == before,
        }
    }
}

fn place(ui: &mut Ui, args: Vec<Value>, name: &str, side: Side) -> (r: Result<Value, String>)
    ensures
        placed(*old(ui), *final(ui), args@, name@, side, r),
{
    if args.len() < 2 || args.len() > 3 {
        return Err(arity_error(name, "2-3 arguments (control_id, target_id, [space])", args.len()));
    }
    let id = match &args[0] {
        Value::String(id) => id,
        _ => return Err(expects_error(name, "a control identifier")),
    };
    let target = match &args[1] {
        Value::String(t) => t.clone(),
        _ => return Err(expects_error(name, "a target control identifier")),
    };
    let space: u32 = if args.len() == 3 {
        match &args[2] {
            Value::Number(n) => number_to_single(*n),
            _ => SPACE_DEFAULT,
        }
    } else {
        SPACE_DEFAULT
    };
    if ui.controls.find(&target).is_none() {
        return Err(text("Target control not found"));
    }
    match ui.controls.find(id) {
        Some(i) => {
            let ghost tg = target;
            let c = ui.controls.value_mut(i);
            c.layout_constraint = Some(make_constraint(side, target, space));
            proof {
                assert(space_given(args@, space));
                assert(c.layout_constraint == Some(side_constraint(side, tg, space)));
            }
            Ok(Value::Null)
        },
        None => Err(text("Control not found")),
    }
}

/// `set_left(control, target, [space])`: the control goes to the left of the target.
pub fn set_left(ui: &mut Ui, args: Vec<Value>) -> (r: Result<Value, String>)
    ensures
        placed(*old(ui), *final(ui), args@, "set_left"@, Side::LeftOf, r),
{
    place(ui, args, "set_left", Side::LeftOf)
}

/// `set_right(control, target, [space])`: the control goes to the right of the target.
pub fn set_right(ui: &mut Ui, args: Vec<Value>) -> (r: Result<Value, String>)
    ensures
        placed(*old(ui), *final(ui), args@, "set_right"@, Side::RightOf, r),
{
    place(ui, args, "set_right", Side::RightOf)
}

/// `set_above(control, target, [space])`: the control goes above the target.
pub fn set_above(ui: &mut Ui, args: Vec<Value>) -> (r: Result<Value, String>)
    ensures
        placed(*old(ui), *final(ui), args@, "set_above"@, Side::Above, r),
{
    place(ui, args, "set_above", Side::Above)
}

/// `set_below(control, target, [space])`: the control goes below the target.
pub fn set_below(ui: &mut Ui, args: Vec<Value>) -> (r: Result<Value, String>)
    ensures
        placed(*old(ui), *final(ui), args@, "set_below"@, Side::Below, r),
{
    place(ui, args, "set_below", Side::Below)
}

/// Which coordinate of a control a call sets or reads.
#[derive(Clone, Copy, Debug, PartialEq, Eq, Structural)]
pub enum Axis {
    X,
    Y,
}

/// The coordinate of a control on an axis.
pub open spec fn coordinate(c: ControlSettings, axis: Axis) -> u32 {
    match axis {
        Axis::X => c.x,
        Axis::Y => c.y,
    }
}

/// The result and effect of `set_x` and `set_y`: the coordinate becomes the
/// number as a single, and any placement next to another control ends.
pub open spec fn moved(before: Ui, after: Ui, args: Seq<Value>, name: Seq<char>, axis: Axis, r: Result<Value, String>) -> bool {
    if args.len() != 2 {
        fails_with(r, arity_message(name, "2 arguments"@, args.len())) && after == before
    } else {
        match (args[0], args[1]) {
            (Value::String(id), Value::Number(n)) => if before.controls@.contains_key(id@) {
                let c = after.controls@[id@];
                &&& r == Ok::<Value, String>(Value::Null)
                &&& after.controls@ == before.controls@.insert(id@, c)
                &&& narrows_to(n, coordinate(c, axis))
                &&& c == (ControlSettings { x: c.x, y: c.y, layout_constraint: None, ..before.controls@[id@] })
                &&& axis == Axis::X ==> c.y == before.controls@[id@].y
                &&& axis == Axis::Y ==> c.x == before.controls@[id@].x
                &&& after == before.with_controls(after.controls)
            } else {
                fails_with(r, "Control not found"@) && after == before
            },
            (Value::String(_), _) => fails_with(r, expects(name, "a number"@)) && after == before,
            _ => fails_with(r, expects(name, "a control identifier"@)) && after == before,
        }
    }
}

fn move_to(ui: &mut Ui, args: Vec<Value>, name: &str, axis: Axis) -> (r: Result<Value, String>)
    ensures
        moved(*old(ui), *final(ui), args@, name@, axis, r),
{
    if args.len() != 2 {
        return Err(arity_error(name, "2 arguments", args.len()));
    }
    let id = match &args[0] {
        Value::String(id) => id,
        _ => return Err(expects_error(name, "a control identifier")),
    };
    let v = match &args[1] {
        Value::Number(n) => number_to_single(*n),
        _ => return Err(expects_error(name, "a number")),
    };
    match ui.controls.find(id) {
        Some(i) => {
            let c = ui.controls.value_mut(i);
            match axis {
                Axis::X => c.x = v,
                Axis::Y => c.y = v,
            }
            c.layout_constraint = None;
            Ok(Value::Null)
        },
        None => Err(text("Control not found")),
    }
}

/// `set_x(control, x)`.
pub fn set_x(ui: &mut Ui, args: Vec<Value>) -> (r: Result<Value, String>)
    ensures
        moved(*old(ui), *final(ui), args@, "set_x"@, Axis::X, r),
{
    move_to(ui, args, "set_x", Axis::X)
}

/// `set_y(control, y)`.
pub fn set_y(ui: &mut Ui, args: Vec<Value>) -> (r: Result<Value, String>)
    ensures
        moved(*old(ui), *final(ui), args@, "set_y"@, Axis::Y, r),
{
    move_to(ui, args, "set_y", Axis::Y)
}

/// What `get_x` and `get_y` give: the coordinate as a number.
pub open spec fn coordinate_read(ui: Ui, args: Seq<Value>, name: Seq<char>, axis: Axis, r: Result<Value, String>) -> bool {
    if args.len() != 1 {
        fails_with(r, arity_message(name, "1 argument"@, args.len()))
    } else {
        match args[0] {
            Value::String(id) => if ui.controls@.contains_key(id@) {
                r matches Ok(Value::Number(v)) && widens_to(coordinate(ui.controls@[id@], axis), v)
            } else {
                fails_with(r, "Control not found"@)
            },
            _ => fails_with(r, expects(name, "a control identifier"@)),
        }
    }
}

fn read_coordinate(ui: &Ui, args: Vec<Value>, name: &str, axis: Axis) -> (r: Result<Value, String>)
    ensures
        coordinate_read(*ui, args@, name@, axis, r),
{
    if args.len() != 1 {
        return Err(arity_error(name, "1 argument", args.len()));
    }
    let id = match &args[0] {
        Value::String(id) => id,
        _ => return Err(expects_error(name, "a control identifier")),
    };
    match ui.controls.get(id) {
        Some(c) => {
            let v = match axis {
                Axis::X => c.x,
                Axis::Y => c.y,
            };
            Ok(Value::Number(single_to_number(v)))
        },
        None => Err(text("Control not found")),
    }
}

/// `get_x(control)`.
pub fn get_x(ui: &Ui, args: Vec<Value>) -> (r: Result<Value, String>)
    ensures
        coordinate_read(*ui, args@, "get_x"@, Axis::X, r),
{
    read_coordinate(ui, args, "get_x", Axis::X)
}

/// `get_y(control)`.
pub fn get_y(ui: &Ui, args: Vec<Value>) -> (r: Result<Value, String>)
    ensures
        coordinate_read(*ui, args@, "get_y"@, Axis::Y, r),
{
    read_coordinate(ui, args, "get_y", Axis::Y)
}

/// `set_position(form, x, y)`: where a form placed by hand goes.
pub fn set_position(ui: &mut Ui, args: Vec<Value>) -> (r: Result<Value, String>)
    ensures
        args.len() != 3 ==> fails_with(r, arity_message("set_position"@, "3 arguments"@, args.len() as nat))
            && *final(ui) == *old(ui),
        args.len() == 3 ==> match (args@[0], args@[1], args@[2]) {
            (Value::FormObject(id), Value::Number(x), Value::Number(y)) => if old(ui).forms@.contains_key(id@) {
                let f = final(ui).forms@[id@];
                &&& r == Ok::<Value, String>(Value::Null)
                &&& final(ui).forms@ == old(ui).forms@.insert(id@, f)
                &&& f.position matches Some(p) && narrows_to(x, p.0) && narrows_to(y, p.1)
                &&& f == (FormSettings { position: f.position, ..old(ui).forms@[id@] })
                &&& *final(ui) == old(ui).with_forms(final(ui).forms)
            } else {
                fails_with(r, "Form not found"@) && *final(ui) == *old(ui)
            },
            (Value::FormObject(_), Value::Number(_), _) => fails_with(r, expects("set_position"@, "a number for y"@))
                && *final(ui) == *old(ui),
            (Value::FormObject(_), _, _) => fails_with(r, expects("set_position"@, "a number for x"@))
                && *final(ui) == *old(ui),
            _ => fails_with(r, expects("set_position"@, "a Form identifier"@)) && *final(ui) == *old(ui),
        },
{
    if args.len() != 3 {
        return Err(arity_error("set_position", "3 arguments", args.len()));
    }
    let id = match &args[0] {
        Value::FormObject(id) => id,
        _ => return Err(expects_error("set_position", "a Form identifier")),
    };
    let x = match &args[1] {
        Value::Number(n) => number_to_single(*n),
        _ => return Err(expects_error("set_position", "a number for x")),
    };
    let y = match &args[2] {
        Value::Number(n) => number_to_single(*n),
        _ => return Err(expects_error("set_position", "a number for y")),
    };
    match ui.forms.find(id) {
        Some(i) => {
            let f = ui.forms.value_mut(i);
            f.position = Some((x, y));
            Ok(Value::Null)
        },
        None => Err(text("Form not found")),
    }
}

/// Which of the two box edges of a control a call sets.
#[derive(Clone, Copy, Debug, PartialEq, Eq, Structural)]
pub enum Edges {
    Padding,
    Margin,
}

/// The first argument that is not a number, among the four edge widths.
pub open spec fn edge_error(args: Seq<Value>, name: Seq<char>) -> Option<Seq<char>> {
    if !(args[1] is Number) {
        Some(expects(name, "a number for left"@))
    } else if !(args[2] is Number) {
        Some(expects(name, "a number for top"@))
    } else if !(args[3] is Number) {
        Some(expects(name, "a number for right"@))
    } else if !(args[4] is Number) {
        Some(expects(name, "a number for bottom"@))
    } else {
        None
    }
}

/// The widths `w` are the four numbers of the call, as singles.
pub open spec fn edges_given(args: Seq<Value>, w: (u32, u32, u32, u32)) -> bool {
    &&& args[1] matches Value::Number(a) && narrows_to(a, w.0)
    &&& args[2] matches Value::Number(b) && narrows_to(b, w.1)
    &&& args[3] matches Value::Number(c) && narrows_to(c, w.2)
    &&& args[4] matches Value::Number(d) && narrows_to(d, w.3)
}

/// The result and effect of `set_padding` and `set_margin`.
pub open spec fn edges_set(before: Ui, after: Ui, args: Seq<Value>, name: Seq<char>, which: Edges, r: Result<Value, String>) -> bool {
    if args.len() != 5 {
        fails_with(r, arity_message(name, "5 arguments (control_id, left, top, right, bottom)"@, args.len()))
            && after == before
    } else if !(args[0] is String) {
        fails_with(r, expects(name, "a control identifier"@)) && after == before
    } else {
        match edge_error(args, name) {
            Some(m) => fails_with(r, m) && after == before,
            None => match args[0] {
                Value::String(id) => if before.controls@.contains_key(id@) {
                    let c = after.controls@[id@];
                    &&& r == Ok::<Value, String>(Value::Null)
                    &&& after.controls@ == before.controls@.insert(id@, c)
                    &&& which == Edges::Padding ==> edges_given(args, c.padding) && c == (ControlSettings {
                        padding: c.padding,
                        ..before.controls@[id@]
                    })
                    &&& which == Edges::Margin ==> edges_given(args, c.margin) && c == (ControlSettings {
                        margin: c.margin,
                        ..before.controls@[id@]
                    })
                    &&& after == before.with_controls(after.controls)
                } else {
                    fails_with(r, "Control not found"@) && after == before
                },
                _ => false,
            },
        }
    }
}

fn number_edge(v: &Value, name: &str, which: &str) -> (r: Result<u32, String>)
    ensures
        match *v {
            Value::Number(n) => r matches Ok(w) && narrows_to(n, w),
            _ => fails_with(r, expects(name@, "a number for "@ + which@)),
        },
{
    match v {
        Value::Number(n) => Ok(number_to_single(*n)),
        _ => {
            let mut what = text("a number for ");
            what.append(which);
            Err(expects_error(name, what.as_str()))
        },
    }
}

fn set_edges(ui: &mut Ui, args: Vec<Value>, name: &str, which: Edges) -> (r: Result<Value, String>)
    ensures
        edges_set(*old(ui), *final(ui), args@, name@, which, r),
{
    if args.len() != 5 {
        return Err(arity_error(name, "5 arguments (control_id, left, top, right, bottom)", args.len()));
    }
    let id = match &args[0] {
        Value::String(id) => id,
        _ => return Err(expects_error(name, "a control identifier")),
    };
    proof {
        reveal_strlit("left");
        reveal_strlit("top");
        reveal_strlit("right");
        reveal_strlit("bottom");
        reveal_strlit("a number for ");
        reveal_strlit("a number for left");
        reveal_strlit("a number for top");
        reveal_strlit("a number for right");
        reveal_strlit("a number for bottom");
        assert("a number for "@ + "left"@ =~= "a number for left"@);
        assert("a number for "@ + "top"@ =~= "a number for top"@);
        assert("a number for "@ + "right"@ =~= "a number for right"@);
        assert("a number for "@ + "bottom"@ =~= "a number for bottom"@);
    }
    let left = number_edge(&args[1], name, "left")?;
    let top = number_edge(&args[2], name, "top")?;
    let right = number_edge(&args[3], name, "right")?;
    let bottom = number_edge(&args[4], name, "bottom")?;
    match ui.controls.find(id) {
        Some(i) => {
            let c = ui.controls.value_mut(i);
            match which {
                Edges::Padding => c.padding = (left, top, right, bottom),
                Edges::Margin => c.margin = (left, top, right, bottom),
            }
            Ok(Value::Null)
        },
        None => Err(text("Control not found")),
    }
}

/// `set_padding(control, left, top, right, bottom)`.
pub fn set_padding(ui: &mut Ui, args: Vec<Value>) -> (r: Result<Value, String>)
    ensures
        edges_set(*old(ui), *final(ui), args@, "set_padding"@, Edges::Padding, r),
{
    set_edges(ui, args, "set_padding", Edges::Padding)
}

/// `set_margin(control, left, top, right, bottom)`.
pub fn set_margin(ui: &mut Ui, args: Vec<Value>) -> (r: Result<Value, String>)
    ensures
        edges_set(*old(ui), *final(ui), args@, "set_margin"@, Edges::Margin, r),
{
    set_edges(ui, args, "set_margin", Edges::Margin)
}

} // verus!
