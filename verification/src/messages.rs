//! Message boxes: what each holds, the call that shows one, the answer a
//! button gives it, and the calls that read the answer back.

use vstd::prelude::*;
use crate::create::{is_uuid_text, new_identifier};
use crate::text::{arity_error, arity_message, fails_with, same_text, text};
use crate::ui::{lowercase, lowercase_text, MsgBoxButtons, MsgBoxIcon, Ui};
use crate::value::Value;

verus! {

/// A message box: its title and message, its buttons and icon, the answer
/// its buttons gave (`"Ok"`, `"Yes"`, `"No"` or `"Cancel"`), whether it is
/// shown, and whether its answer was read.
pub struct MsgBox {
    pub title: Option<String>,
    pub message: String,
    pub buttons: MsgBoxButtons,
    pub icon: MsgBoxIcon,
    pub response: Option<String>,
    pub is_open: bool,
    pub response_retrieved: bool,
}

impl MsgBox {
    /// A closed box with no answer: an OK button and no icon unless told
    /// otherwise.
    pub fn new(message: String, title: Option<String>, buttons: Option<MsgBoxButtons>, icon: Option<MsgBoxIcon>) -> (b: MsgBox)
        ensures
            b.message == message,
            b.title == title,
            b.buttons == (match buttons { Some(x) => x, None => MsgBoxButtons::OkOnly }),
            b.icon == (match icon { Some(x) => x, None => MsgBoxIcon::NoIcon }),
            b.response is None,
            !b.is_open,
            !b.response_retrieved,
    {
        MsgBox {
            title,
            message,
            buttons: match buttons {
                Some(x) => x,
                None => MsgBoxButtons::OkOnly,
            },
            icon: match icon {
                Some(x) => x,
                None => MsgBoxIcon::NoIcon,
            },
            response: None,
            is_open: false,
            response_retrieved: false,
        }
    }

    /// Shows the box.
    pub fn open(&mut self)
        ensures
            *final(self) == (MsgBox { is_open: true, ..*old(self) }),
    {
        self.is_open = true;
    }

    /// The answer, if one was given.
    pub fn get_response(&self) -> (r: Option<&String>)
        ensures
            r == (match self.response { Some(s) => Some(&s), None => None::<&String> }),
    {
        match &self.response {
            Some(s) => Some(s),
            None => None,
        }
    }

    /// A button was pressed: the box keeps its answer and closes.
    pub fn respond(&mut self, answer: String)
        ensures
            *final(self) == (MsgBox { response: Some(answer), is_open: false, ..*old(self) }),
    {
        self.response = Some(answer);
        self.is_open = false;
    }
}

/// The answers that the buttons of a box give, in the order they stand.
pub open spec fn button_answers(b: MsgBoxButtons) -> Seq<Seq<char>> {
    match b {
        MsgBoxButtons::OkOnly => seq!["Ok"@],
        MsgBoxButtons::YesNo => seq!["Yes"@, "No"@],
        MsgBoxButtons::YesNoCancel => seq!["Yes"@, "No"@, "Cancel"@],
    }
}

/// The answers that the buttons of a box give.
pub fn answers(b: MsgBoxButtons) -> (r: Vec<String>)
    ensures
        r@.len() == button_answers(b).len(),
        forall|i: int| 0 <= i < r@.len() ==> (#[trigger] r@[i])@ == button_answers(b)[i],
{
    let mut r: Vec<String> = Vec::new();
    match b {
        MsgBoxButtons::OkOnly => r.push(text("Ok")),
        MsgBoxButtons::YesNo => {
            r.push(text("Yes"));
            r.push(text("No"));
        },
        MsgBoxButtons::YesNoCancel => {
            r.push(text("Yes"));
            r.push(text("No"));
            r.push(text("Cancel"));
        },
    }
    r
}

/// The buttons that a name stands for, in any case.
pub open spec fn buttons_of(s: Seq<char>) -> Option<MsgBoxButtons> {
    if s == "ok"@ {
        Some(MsgBoxButtons::OkOnly)
    } else if s == "yesno"@ {
        Some(MsgBoxButtons::YesNo)
    } else if s == "yesnocancel"@ {
        Some(MsgBoxButtons::YesNoCancel)
    } else {
        None
    }
}

/// The icon that a name stands for, in any case.
pub open spec fn icon_of(s: Seq<char>) -> Option<MsgBoxIcon> {
    if s == "success"@ {
        Some(MsgBoxIcon::Success)
    } else if s == "error"@ {
        Some(MsgBoxIcon::Error)
    } else if s == "info"@ {
        Some(MsgBoxIcon::Info)
    } else if s == "warning"@ {
        Some(MsgBoxIcon::Warning)
    } else {
        None
    }
}

/// Optional argument `i`: the buttons its text names, if it names some.
pub open spec fn buttons_arg(args: Seq<Value>, i: int) -> Option<MsgBoxButtons> {
    if i < args.len() && args[i] is String {
        buttons_of(lowercase_text(args[i]->String_0@))
    } else {
        None
    }
}

/// Optional argument `i`: the icon its text names, if it names one.
pub open spec fn icon_arg(args: Seq<Value>, i: int) -> Option<MsgBoxIcon> {
    if i < args.len() && args[i] is String {
        icon_of(lowercase_text(args[i]->String_0@))
    } else {
        None
    }
}

fn read_buttons(args: &Vec<Value>, i: usize) -> (r: Option<MsgBoxButtons>)
    ensures
        r == buttons_arg(args@, i as int),
{
    if i < args.len() {
        match &args[i] {
            Value::String(s) => {
                let low = lowercase(s);
                if same_text(&low, "ok") {
                    Some(MsgBoxButtons::OkOnly)
                } else if same_text(&low, "yesno") {
                    Some(MsgBoxButtons::YesNo)
                } else if same_text(&low, "yesnocancel") {
                    Some(MsgBoxButtons::YesNoCancel)
                } else {
                    None
                }
            },
            _ => None,
        }
    } else {
        None
    }
}

fn read_icon(args: &Vec<Value>, i: usize) -> (r: Option<MsgBoxIcon>)
    ensures
        r == icon_arg(args@, i as int),
{
    if i < args.len() {
        match &args[i] {
            Value::String(s) => {
                let low = lowercase(s);
                if same_text(&low, "success") {
                    Some(MsgBoxIcon::Success)
                } else if same_text(&low, "error") {
                    Some(MsgBoxIcon::Error)
                } else if same_text(&low, "info") {
                    Some(MsgBoxIcon::Info)
                } else if same_text(&low, "warning") {
                    Some(MsgBoxIcon::Warning)
                } else {
                    None
                }
            },
            _ => None,
        }
    } else {
        None
    }
}

/// `show_message_box(message, [title, buttons, icon])`: a shown box with no
/// answer yet, under a fresh identifier.
pub fn show_message_box(ui: &mut Ui, args: Vec<Value>) -> (r: Result<Value, String>)
    ensures
        args.len() < 1 || args.len() > 4 ==> fails_with(r, arity_message("show_message_box"@,
            "1-4 arguments (message, [title, buttons, icon])"@, args.len() as nat)) && *final(ui) == *old(ui),
        1 <= args.len() <= 4 && !(args@[0] is String) ==> fails_with(r,
            "show_message_box() expects a string for message"@) && *final(ui) == *old(ui),
        1 <= args.len() <= 4 && args@[0] is String ==> {
            let id = r->Ok_0->String_0@;
            let b = final(ui).msgboxes@[id];
            &&& r matches Ok(Value::String(s)) && is_uuid_text(s@)
            &&& final(ui).msgboxes@ == old(ui).msgboxes@.insert(id, b)
            &&& b.message@ == args@[0]->String_0@
            &&& (if args.len() > 1 && args@[1] is String {
                b.title matches Some(t) && t@ == args@[1]->String_0@
            } else {
                b.title is None
            })
            &&& b.buttons == (match buttons_arg(args@, 2) { Some(x) => x, None => MsgBoxButtons::OkOnly })
            &&& b.icon == (match icon_arg(args@, 3) { Some(x) => x, None => MsgBoxIcon::NoIcon })
            &&& b.response is None && b.is_open && !b.response_retrieved
            &&& *final(ui) == (Ui { msgboxes: final(ui).msgboxes, ..*old(ui) })
        },
{
    if args.len() < 1 || args.len() > 4 {
        return Err(arity_error("show_message_box", "1-4 arguments (message, [title, buttons, icon])", args.len()));
    }
    let message = match &args[0] {
        Value::String(s) => s.clone(),
        _ => return Err(text("show_message_box() expects a string for message")),
    };
    let title = if args.len() > 1 {
        match &args[1] {
            Value::String(s) => Some(s.clone()),
            _ => None,
        }
    } else {
        None
    };
    let buttons = read_buttons(&args, 2);
    let icon = read_icon(&args, 3);
    let id = new_identifier();
    let mut b = MsgBox::new(message, title, buttons, icon);
    b.open();
    ui.msgboxes.insert(id.clone(), b);
    Ok(Value::String(id))
}

/// What one look at a box for its answer gives: the errors of the call, the
/// answer (which is then marked as read), or `None` while there is none yet.
pub open spec fn response_polled(before: Ui, after: Ui, args: Seq<Value>, r: Result<Option<Value>, String>) -> bool {
    if args.len() != 1 {
        fails_with(r, arity_message("get_message_box_response"@, "1 argument (msgbox_id)"@, args.len()))
            && after == before
    } else {
        match args[0] {
            Value::String(id) => if !before.msgboxes@.contains_key(id@) {
                fails_with(r, "Message box not found"@) && after == before
            } else {
                let b = before.msgboxes@[id@];
                match b.response {
                    Some(s) => {
                        &&& r matches Ok(Some(Value::String(t))) && t@ == s@
                        &&& after.msgboxes@ == before.msgboxes@.insert(id@, MsgBox { response_retrieved: true, ..b })
                        &&& after == (Ui { msgboxes: after.msgboxes, ..before })
                    },
                    None => r == Ok::<Option<Value>, String>(None) && after == before,
                }
            },
            _ => fails_with(r, "get_message_box_response() expects a message box identifier (string)"@)
                && after == before,
        }
    }
}

/// `get_message_box_response(box)`, one look: the box's answer, marked as
/// read, or `None` while it has none. Waiting and looking again is the
/// caller's.
pub fn get_message_box_response(ui: &mut Ui, args: Vec<Value>) -> (r: Result<Option<Value>, String>)
    ensures
        response_polled(*old(ui), *final(ui), args@, r),
{
    if args.len() != 1 {
        return Err(arity_error("get_message_box_response", "1 argument (msgbox_id)", args.len()));
    }
    let id = match &args[0] {
        Value::String(id) => id,
        _ => return Err(text("get_message_box_response() expects a message box identifier (string)")),
    };
    let slot = match ui.msgboxes.find(id) {
        Some(i) => i,
        None => return Err(text("Message box not found")),
    };
    let answer = match &ui.msgboxes.value_at(slot).response {
        Some(s) => s.clone(),
        None => return Ok(None),
    };
    let b = ui.msgboxes.value_mut(slot);
    b.response_retrieved = true;
    Ok(Some(Value::String(answer)))
}

/// A box that is closed and whose answer was read is done with.
pub open spec fn finished(b: MsgBox) -> bool {
    !b.is_open && b.response_retrieved
}

/// Forgets the box `id` if it is done with; whether it did.
pub fn drop_finished_message_box(ui: &mut Ui, id: &String) -> (r: bool)
    ensures
        r == (old(ui).msgboxes@.contains_key(id@) && finished(old(ui).msgboxes@[id@])),
        r ==> final(ui).msgboxes@ == old(ui).msgboxes@.remove(id@),
        *final(ui) == (if r { Ui { msgboxes: final(ui).msgboxes, ..*old(ui) } } else { *old(ui) }),
{
    let done = match ui.msgboxes.get(id) {
        Some(b) => !b.is_open && b.response_retrieved,
        None => false,
    };
    if done {
        ui.msgboxes.remove(id);
    }
    done
}

/// What pressing button `answer` of box `id` does: whether there is such a
/// box, which then keeps the answer and closes.
pub open spec fn box_answered(before: Ui, after: Ui, id: Seq<char>, answer: String, r: bool) -> bool {
    &&& r == before.msgboxes@.contains_key(id)
    &&& r ==> after.msgboxes@ == before.msgboxes@.insert(id,
        MsgBox { response: Some(answer), is_open: false, ..before.msgboxes@[id] })
    &&& after == (if r { Ui { msgboxes: after.msgboxes, ..before } } else { before })
}

/// Presses button `answer` of box `id`: it keeps the answer and closes.
pub fn answer_message_box(ui: &mut Ui, id: &String, answer: String) -> (r: bool)
    ensures
        box_answered(*old(ui), *final(ui), id@, answer, r),
{
    match ui.msgboxes.find(id) {
        Some(i) => {
            let b = ui.msgboxes.value_mut(i);
            b.respond(answer);
            true
        },
        None => false,
    }
}

} // verus!
