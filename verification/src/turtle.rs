//! Turtle moves: the calls that ask for a move, and the record of a move once
//! the window has worked out, in single precision, where it ends.

use vstd::prelude::*;
use crate::single::{narrowed, number_to_single};
use crate::text::{fails_with, same_text, text};
use crate::ui::{ControlSettings, DrawyState, FloatWork, Ui};
use crate::value::Value;

verus! {

/// The `f32` bit pattern of 360.0.
pub const FULL_TURN: u32 = 0x43b4_0000;

/// A single that is zero, of either sign.
pub open spec fn single_is_zero(b: u32) -> bool {
    b % 0x8000_0000 == 0
}

/// Why a call on a turtle's shape is refused once its arguments are read:
/// no control or no turtle, or a control that is not a shape.
pub open spec fn shape_error(ui: Ui, id: Seq<char>) -> Option<Seq<char>> {
    if !ui.controls@.contains_key(id) || !ui.drawings@.contains_key(id) {
        Some("Shape or turtle state not found"@)
    } else if ui.controls@[id].control_type@ != "shape"@ {
        Some("Control is not a shape"@)
    } else {
        None
    }
}

fn shape_check(ui: &Ui, id: &String) -> (r: Option<String>)
    ensures
        match shape_error(*ui, id@) {
            Some(m) => r matches Some(e) && e@ == m,
            None => r is None,
        },
{
    match (ui.controls.get(id), ui.drawings.get(id)) {
        (Some(c), Some(_)) => if same_text(&c.control_type, "shape") {
            None
        } else {
            Some(text("Control is not a shape"))
        },
        _ => Some(text("Shape or turtle state not found")),
    }
}

/// A move is due: the error of the shape, or the work queued.
pub open spec fn move_queued(before: Ui, after: Ui, id: Seq<char>, work: FloatWork, r: Result<Value, String>) -> bool {
    match shape_error(before, id) {
        Some(m) => fails_with(r, m) && after == before,
        None => {
            &&& r == Ok::<Value, String>(Value::Null)
            &&& after.float_work@ == before.float_work@.push(work)
            &&& after == (Ui { float_work: after.float_work, ..before })
        },
    }
}

fn queue_move(ui: &mut Ui, id: &String, work: FloatWork) -> (r: Result<Value, String>)
    ensures
        move_queued(*old(ui), *final(ui), id@, work, r),
{
    match shape_check(ui, id) {
        Some(e) => Err(e),
        None => {
            ui.float_work.push(work);
            Ok(Value::Null)
        },
    }
}

/// `drawy_forward(shape, distance)`: the turtle is due to move ahead.
pub fn drawy_forward(ui: &mut Ui, args: Vec<Value>) -> (r: Result<Value, String>)
    ensures
        args.len() != 2 ==> fails_with(r, "turtle_forward() expects 2 arguments (shape_id, distance)"@)
            && *final(ui) == *old(ui),
        args.len() == 2 ==> match (args@[0], args@[1]) {
            (Value::String(id), Value::Number(n)) => move_queued(*old(ui), *final(ui), id@,
                FloatWork::Forward { id, distance: narrowed(n) }, r),
            (Value::String(_), _) => fails_with(r, "Second argument must be a number (distance)"@) && *final(ui) == *old(ui),
            _ => fails_with(r, "First argument must be a shape identifier"@) && *final(ui) == *old(ui),
        },
{
    if args.len() != 2 {
        return Err(text("turtle_forward() expects 2 arguments (shape_id, distance)"));
    }
    let (a, b) = crate::value::take_two(args);
    let id = match a {
        Value::String(id) => id,
        _ => return Err(text("First argument must be a shape identifier")),
    };
    let distance = match b {
        Value::Number(n) => number_to_single(n),
        _ => return Err(text("Second argument must be a number (distance)")),
    };
    let key = id.clone();
    queue_move(ui, &key, FloatWork::Forward { id, distance })
}

/// `drawy_goto(shape, x, y)`: the turtle is due to move to a point given from
/// the corner of its shape.
pub fn drawy_goto(ui: &mut Ui, args: Vec<Value>) -> (r: Result<Value, String>)
    ensures
        args.len() != 3 ==> fails_with(r, "turtle_goto() expects 3 arguments (shape_id, x, y)"@) && *final(ui) == *old(ui),
        args.len() == 3 ==> match (args@[0], args@[1], args@[2]) {
            (Value::String(id), Value::Number(x), Value::Number(y)) => move_queued(*old(ui), *final(ui), id@,
                FloatWork::Goto { id, x: narrowed(x), y: narrowed(y) }, r),
            (Value::String(_), Value::Number(_), _) => fails_with(r, "Third argument must be a number (y)"@)
                && *final(ui) == *old(ui),
            (Value::String(_), _, _) => fails_with(r, "Second argument must be a number (x)"@) && *final(ui) == *old(ui),
            _ => fails_with(r, "First argument must be a shape identifier"@) && *final(ui) == *old(ui),
        },
{
    if args.len() != 3 {
        return Err(text("turtle_goto() expects 3 arguments (shape_id, x, y)"));
    }
    let (a, b, c) = crate::value::take_three(args);
    let id = match a {
        Value::String(id) => id,
        _ => return Err(text("First argument must be a shape identifier")),
    };
    let x = match b {
        Value::Number(n) => number_to_single(n),
        _ => return Err(text("Second argument must be a number (x)")),
    };
    let y = match c {
        Value::Number(n) => number_to_single(n),
        _ => return Err(text("Third argument must be a number (y)")),
    };
    let key = id.clone();
    queue_move(ui, &key, FloatWork::Goto { id, x, y })
}

/// The extent of a circle: argument 2 as a single, or a full turn.
pub open spec fn extent_arg(args: Seq<Value>) -> u32 {
    if args.len() > 2 && args[2] is Number {
        narrowed(args[2]->Number_0)
    } else {
        FULL_TURN
    }
}

/// `drawy_circle(shape, radius, [extent])`: the turtle is due to go round
/// (a part of) a circle, a full one unless told otherwise.
pub fn drawy_circle(ui: &mut Ui, args: Vec<Value>) -> (r: Result<Value, String>)
    ensures
        args.len() < 2 || args.len() > 3 ==> fails_with(r,
            "turtle_circle() expects 2-3 arguments (shape_id, radius, [extent])"@) && *final(ui) == *old(ui),
        2 <= args.len() <= 3 ==> match (args@[0], args@[1]) {
            (Value::String(id), Value::Number(n)) => move_queued(*old(ui), *final(ui), id@,
                FloatWork::Circle { id, radius: narrowed(n), extent: extent_arg(args@) }, r),
            (Value::String(_), _) => fails_with(r, "Second argument must be a number (radius)"@) && *final(ui) == *old(ui),
            _ => fails_with(r, "First argument must be a shape identifier"@) && *final(ui) == *old(ui),
        },
{
    if args.len() < 2 || args.len() > 3 {
        return Err(text("turtle_circle() expects 2-3 arguments (shape_id, radius, [extent])"));
    }
    let extent = if args.len() > 2 {
        match &args[2] {
            Value::Number(n) => number_to_single(*n),
            _ => FULL_TURN,
        }
    } else {
        FULL_TURN
    };
    let id = match &args[0] {
        Value::String(id) => id.clone(),
        _ => return Err(text("First argument must be a shape identifier")),
    };
    let radius = match &args[1] {
        Value::Number(n) => number_to_single(*n),
        _ => return Err(text("Second argument must be a number (radius)")),
    };
    let key = id.clone();
    queue_move(ui, &key, FloatWork::Circle { id, radius, extent })
}

/// The turtle after a step to `to`: a line from where it stood, in its pen's
/// size and colour, when its pen is down (to be drawn slowly when the step is
/// `paced` and the turtle's speed is not zero), and a corner of the shape
/// being filled when it fills.
pub open spec fn stepped(d: DrawyState, e: DrawyState, to: (u32, u32), paced: bool) -> bool {
    let line = (d.position, to, d.pen_size, d.pen_color);
    let slow = paced && !single_is_zero(d.speed);
    &&& e == (DrawyState { position: to, path: e.path, pending_moves: e.pending_moves, fill_path: e.fill_path, ..d })
    &&& e.path@ == (if d.pen_down && !slow { d.path@.push(line) } else { d.path@ })
    &&& e.pending_moves@ == (if d.pen_down && slow { d.pending_moves@.push(line) } else { d.pending_moves@ })
    &&& e.fill_path@ == (if d.filling { d.fill_path@.push(to) } else { d.fill_path@ })
}

/// Steps the turtle of `id` to `to`; whether it has a turtle.
pub fn turtle_step(ui: &mut Ui, id: &String, to: (u32, u32), paced: bool) -> (r: bool)
    ensures
        r == old(ui).drawings@.contains_key(id@),
        r ==> final(ui).drawings@ == old(ui).drawings@.insert(id@, final(ui).drawings@[id@])
            && stepped(old(ui).drawings@[id@], final(ui).drawings@[id@], to, paced),
        *final(ui) == (Ui { drawings: final(ui).drawings, ..*old(ui) }),
        !r ==> *final(ui) == *old(ui),
{
    match ui.drawings.find(id) {
        Some(i) => {
            let d = ui.drawings.value_mut(i);
            let line = (d.position, to, d.pen_size, d.pen_color);
            let slow = paced && d.speed % 0x8000_0000 != 0;
            if d.pen_down {
                if slow {
                    d.pending_moves.push(line);
                } else {
                    d.path.push(line);
                }
            }
            if d.filling {
                d.fill_path.push(to);
            }
            d.position = to;
            true
        },
        None => false,
    }
}

/// Turns the turtle of `id` to face `heading`; whether it has a turtle.
pub fn turtle_face(ui: &mut Ui, id: &String, heading: u32) -> (r: bool)
    ensures
        r == old(ui).drawings@.contains_key(id@),
        r ==> final(ui).drawings@ == old(ui).drawings@.insert(id@,
            DrawyState { heading, ..old(ui).drawings@[id@] }),
        *final(ui) == (Ui { drawings: final(ui).drawings, ..*old(ui) }),
        !r ==> *final(ui) == *old(ui),
{
    match ui.drawings.find(id) {
        Some(i) => {
            let d = ui.drawings.value_mut(i);
            d.heading = heading;
            true
        },
        None => false,
    }
}

/// Puts the turtle of `id` at `to` without drawing; whether it has a turtle.
pub fn turtle_place(ui: &mut Ui, id: &String, to: (u32, u32)) -> (r: bool)
    ensures
        r == old(ui).drawings@.contains_key(id@),
        r ==> final(ui).drawings@ == old(ui).drawings@.insert(id@,
            DrawyState { position: to, ..old(ui).drawings@[id@] }),
        *final(ui) == (Ui { drawings: final(ui).drawings, ..*old(ui) }),
        !r ==> *final(ui) == *old(ui),
{
    match ui.drawings.find(id) {
        Some(i) => {
            let d = ui.drawings.value_mut(i);
            d.position = to;
            true
        },
        None => false,
    }
}

/// Puts the control `id` at `(x, y)`; whether there is such a control.
pub fn control_place(ui: &mut Ui, id: &String, x: u32, y: u32) -> (r: bool)
    ensures
        r == old(ui).controls@.contains_key(id@),
        r ==> final(ui).controls@ == old(ui).controls@.insert(id@,
            ControlSettings { x, y, ..old(ui).controls@[id@] }),
        *final(ui) == (Ui { controls: final(ui).controls, ..*old(ui) }),
        !r ==> *final(ui) == *old(ui),
{
    match ui.controls.find(id) {
        Some(i) => {
            let c = ui.controls.value_mut(i);
            c.x = x;
            c.y = y;
            true
        },
        None => false,
    }
}

/// Takes the work in single precision that is due, in order, leaving none.
pub fn take_float_work(ui: &mut Ui) -> (w: Vec<FloatWork>)
    ensures
        w@ == old(ui).float_work@,
        final(ui).float_work@.len() == 0,
        *final(ui) == (Ui { float_work: final(ui).float_work, ..*old(ui) }),
{
    let mut w: Vec<FloatWork> = Vec::new();
    std::mem::swap(&mut w, &mut ui.float_work);
    w
}

} // verus!
