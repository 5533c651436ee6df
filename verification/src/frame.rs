//! What the window loop decides on each frame: which timers fire, and which
//! controls of a form are drawn.

use vstd::prelude::*;
use crate::registry::Registry;
use crate::text::same_text;
use crate::text::{arity_error, arity_message, fails_with, text};
use crate::ui::{expects, expects_error, ControlSettings, FormSettings, PagesState, TimerState, Ui};
use crate::value::{copy_of, copy_value, Value};

verus! {

/// `Instant::duration_since`: the time from `earlier` to `later` (none when
/// `later` comes first). Nothing is stated of it: it rests on the clock.
#[verifier::external_body]
fn duration_between(later: &std::time::Instant, earlier: &std::time::Instant) -> std::time::Duration {
    later.duration_since(*earlier)
}

/// `Duration::as_millis`: the whole milliseconds of a duration. Nothing is
/// stated of the number: the duration is opaque here.
#[verifier::external_body]
fn whole_millis(d: &std::time::Duration) -> u128 {
    d.as_millis()
}

/// For each timer, in table order, the milliseconds from its last tick to
/// `now`, when it has ticked.
pub fn timer_elapsed(ui: &Ui, now: &std::time::Instant) -> (r: Vec<Option<u128>>)
    ensures
        r@.len() == ui.timers.count(),
        forall|i: int| 0 <= i < r@.len() ==> (#[trigger] r@[i] is Some <==> ui.timers.record_at(i).last_tick is Some),
{
    let n = ui.timers.entry_count();
    let mut out: Vec<Option<u128>> = Vec::new();
    let mut i: usize = 0;
    while i < n
        invariant
            n == ui.timers.count(),
            i <= n,
            out@.len() == i,
            forall|j: int| 0 <= j < i ==> (#[trigger] out@[j] is Some <==> ui.timers.record_at(j).last_tick is Some),
        decreases n - i,
    {
        let t = ui.timers.record(i);
        match &t.last_tick {
            Some(last) => {
                let d = duration_between(now, last);
                out.push(Some(whole_millis(&d)));
            },
            None => out.push(None),
        }
        i = i + 1;
    }
    out
}

/// A timer is due when it runs, has ticked before, and at least its interval
/// has passed since.
pub open spec fn timer_due(t: TimerState, elapsed: Option<u128>) -> bool {
    &&& t.enabled
    &&& t.last_tick is Some
    &&& elapsed matches Some(m) && m >= t.interval
}

/// The callbacks of the due timers among the first `n` entries that are
/// script functions, in order; a callback of another kind is not run.
pub open spec fn due_callbacks(timers: Registry<TimerState>, elapsed: Seq<Option<u128>>, n: int) -> Seq<Value>
    decreases n,
{
    if n <= 0 {
        Seq::empty()
    } else {
        let t = timers.record_at(n - 1);
        let before = due_callbacks(timers, elapsed, n - 1);
        if timer_due(t, elapsed[n - 1]) && t.callback is Some && t.callback->0 is Function {
            before.push(t.callback->0)
        } else {
            before
        }
    }
}

/// Some of the first `n` timers runs.
pub open spec fn some_enabled(timers: Registry<TimerState>, n: int) -> bool {
    exists|i: int| 0 <= i < n && #[trigger] timers.record_at(i).enabled
}

/// Each due timer ticks at `now`; the others stay as they were.
pub open spec fn timers_ticked(
    before: Registry<TimerState>,
    after: Registry<TimerState>,
    elapsed: Seq<Option<u128>>,
    now: std::time::Instant,
    n: int,
) -> bool {
    forall|i: int|
        0 <= i < n ==> #[trigger] after.record_at(i) == if timer_due(before.record_at(i), elapsed[i]) {
            TimerState { last_tick: Some(now), ..before.record_at(i) }
        } else {
            before.record_at(i)
        }
}

/// The timers that are due tick at `now`; what comes back is a copy of the
/// callback of each due timer whose callback is a script function, in table order, and whether any
/// timer runs.
pub fn tick_timers(ui: &mut Ui, now: std::time::Instant, elapsed: &Vec<Option<u128>>) -> (r: (Vec<Value>, bool))
    requires
        elapsed@.len() == old(ui).timers.count(),
    ensures
        final(ui).timers.count() == old(ui).timers.count(),
        forall|i: int| 0 <= i < old(ui).timers.count() ==> #[trigger] final(ui).timers.key_at(i) == old(ui).timers.key_at(i),
        timers_ticked(old(ui).timers, final(ui).timers, elapsed@, now, old(ui).timers.count() as int),
        r.0@.len() == due_callbacks(old(ui).timers, elapsed@, old(ui).timers.count() as int).len(),
        forall|i: int| 0 <= i < r.0@.len() ==> copy_of(
            #[trigger] due_callbacks(old(ui).timers, elapsed@, old(ui).timers.count() as int)[i],
            r.0@[i],
        ),
        r.1 == some_enabled(old(ui).timers, old(ui).timers.count() as int),
        *final(ui) == (Ui { timers: final(ui).timers, ..*old(ui) }),
{
    let ghost start = ui.timers;
    let n = ui.timers.entry_count();
    let mut fired: Vec<Value> = Vec::new();
    let mut any = false;
    let mut i: usize = 0;
    while i < n
        invariant
            n == start.count(),
            i <= n,
            elapsed@.len() == n,
            ui.timers.count() == n,
            forall|j: int| 0 <= j < n ==> #[trigger] ui.timers.key_at(j) == start.key_at(j),
            timers_ticked(start, ui.timers, elapsed@, now, i as int),
            forall|j: int| i <= j < n ==> #[trigger] ui.timers.record_at(j) == start.record_at(j),
            fired@.len() == due_callbacks(start, elapsed@, i as int).len(),
            forall|j: int| 0 <= j < fired@.len() ==> copy_of(
                #[trigger] due_callbacks(start, elapsed@, i as int)[j],
                fired@[j],
            ),
            any == some_enabled(start, i as int),
            *ui == (Ui { timers: ui.timers, ..*old(ui) }),
        decreases n - i,
    {
        let ghost mid = ui.timers;
        let t = ui.timers.record_mut(i);
        if t.enabled {
            any = true;
        }
        let due = t.enabled && t.last_tick.is_some() && match elapsed[i] {
            Some(m) => m >= t.interval as u128,
            None => false,
        };
        if due {
            t.last_tick = Some(now);
            match &t.callback {
                Some(cb) => match cb {
                    Value::Function(_) => {
                        let c = copy_value(cb);
                        fired.push(c);
                    },
                    _ => {},
                },
                None => {},
            }
        }
        proof {
            assert(start.record_at(i as int) == mid.record_at(i as int));
            assert forall|j: int| 0 <= j < i + 1 implies #[trigger] ui.timers.record_at(j) == if timer_due(
                start.record_at(j),
                elapsed@[j],
            ) {
                TimerState { last_tick: Some(now), ..start.record_at(j) }
            } else {
                start.record_at(j)
            } by {
                if j < i {
                    assert(ui.timers.record_at(j) == mid.record_at(j));
                }
            }
            if start.record_at(i as int).enabled {
                assert(some_enabled(start, i + 1));
            } else {
                assert forall|j: int| 0 <= j < i + 1 && #[trigger] start.record_at(j).enabled implies 0 <= j < i by {}
            }
        }
        i = i + 1;
    }
    (fired, any)
}

/// The kinds of control that hold other controls.
pub open spec fn is_container(t: Seq<char>) -> bool {
    t == "groupbox"@ || t == "panel"@ || t == "card"@ || t == "sidebar"@ || t == "gridlayout"@
        || t == "horizontallayout"@ || t == "verticallayout"@ || t == "flowlayout"@
}

pub(crate) fn container_kind(t: &String) -> (r: bool)
    ensures
        r == is_container(t@),
{
    same_text(t, "groupbox") || same_text(t, "panel") || same_text(t, "card") || same_text(t, "sidebar")
        || same_text(t, "gridlayout") || same_text(t, "horizontallayout") || same_text(t, "verticallayout")
        || same_text(t, "flowlayout")
}

/// The list of texts holds `k`.
pub open spec fn lists_id(s: Seq<String>, k: Seq<char>) -> bool {
    exists|m: int| 0 <= m < s.len() && (#[trigger] s[m])@ == k
}

/// Some container among the controls lists `k` among its children.
pub open spec fn in_container(controls: Registry<ControlSettings>, k: Seq<char>) -> bool {
    exists|j: int|
        0 <= j < controls.count() && is_container((#[trigger] controls.record_at(j)).control_type@)
            && lists_id(controls.record_at(j).children@, k)
}

/// Some page of some pages control lists `k` among its controls.
pub open spec fn on_a_page(pages: Registry<PagesState>, k: Seq<char>) -> bool {
    exists|j: int, q: int|
        0 <= j < pages.count() && 0 <= q < pages.record_at(j).pages@.len() && lists_id(
            (#[trigger] pages.record_at(j).pages@[q]).control_ids@,
            k,
        )
}

/// Entry `i` of the controls is drawn on the form `form`: it belongs to the
/// form, is visible, lies on no page and, when `skip_children` holds, in no
/// container.
pub open spec fn drawn_on(ui: Ui, form: Seq<char>, skip_children: bool, i: int) -> bool {
    let c = ui.controls.record_at(i);
    let k = ui.controls.key_at(i);
    &&& c.form_id@ == form
    &&& c.visible
    &&& !(skip_children && in_container(ui.controls, k))
    &&& !on_a_page(ui.pages, k)
}

/// The identifiers of the controls among the first `n` entries that are drawn.
pub open spec fn drawn_ids(ui: Ui, form: Seq<char>, skip_children: bool, n: int) -> Seq<Seq<char>>
    decreases n,
{
    if n <= 0 {
        Seq::empty()
    } else if drawn_on(ui, form, skip_children, n - 1) {
        drawn_ids(ui, form, skip_children, n - 1).push(ui.controls.key_at(n - 1))
    } else {
        drawn_ids(ui, form, skip_children, n - 1)
    }
}

fn lists_text(s: &Vec<String>, k: &String) -> (r: bool)
    ensures
        r == lists_id(s@, k@),
{
    let mut m: usize = 0;
    while m < s.len()
        invariant
            m <= s.len(),
            forall|p: int| 0 <= p < m ==> (#[trigger] s@[p])@ != k@,
        decreases s.len() - m,
    {
        if s[m] == *k {
            return true;
        }
        m = m + 1;
    }
    false
}

fn child_of_container(controls: &Registry<ControlSettings>, k: &String) -> (r: bool)
    ensures
        r == in_container(*controls, k@),
{
    let n = controls.entry_count();
    let mut j: usize = 0;
    while j < n
        invariant
            n == controls.count(),
            j <= n,
            forall|p: int|
                0 <= p < j ==> !(is_container((#[trigger] controls.record_at(p)).control_type@) && lists_id(
                    controls.record_at(p).children@,
                    k@,
                )),
        decreases n - j,
    {
        let c = controls.record(j);
        if container_kind(&c.control_type) && lists_text(&c.children, k) {
            return true;
        }
        j = j + 1;
    }
    false
}

fn placed_on_page(pages: &Registry<PagesState>, k: &String) -> (r: bool)
    ensures
        r == on_a_page(*pages, k@),
{
    let n = pages.entry_count();
    let mut j: usize = 0;
    while j < n
        invariant
            n == pages.count(),
            j <= n,
            forall|p: int, q: int|
                0 <= p < j && 0 <= q < pages.record_at(p).pages@.len() ==> !lists_id(
                    (#[trigger] pages.record_at(p).pages@[q]).control_ids@,
                    k@,
                ),
        decreases n - j,
    {
        let st = pages.record(j);
        let mut q: usize = 0;
        while q < st.pages.len()
            invariant
                n == pages.count(),
                j < n,
                *st == pages.record_at(j as int),
                q <= st.pages@.len(),
                forall|p: int, q2: int|
                    0 <= p < j && 0 <= q2 < pages.record_at(p).pages@.len() ==> !lists_id(
                        (#[trigger] pages.record_at(p).pages@[q2]).control_ids@,
                        k@,
                    ),
                forall|q2: int| 0 <= q2 < q ==> !lists_id(#[trigger] st.pages@[q2].control_ids@, k@),
            decreases st.pages.len() - q,
        {
            if lists_text(&st.pages[q].control_ids, k) {
                return true;
            }
            q = q + 1;
        }
        j = j + 1;
    }
    false
}

/// The identifiers of the controls drawn on the form `form`, in table
/// order: those of the form that are visible and lie on no page; the window
/// of the main form leaves out, besides, those that a container holds.
pub fn controls_to_draw(ui: &Ui, form: &String, skip_children: bool) -> (r: Vec<String>)
    ensures
        r@.len() == drawn_ids(*ui, form@, skip_children, ui.controls.count() as int).len(),
        forall|i: int| 0 <= i < r@.len() ==> (#[trigger] r@[i])@ == drawn_ids(
            *ui,
            form@,
            skip_children,
            ui.controls.count() as int,
        )[i],
{
    let n = ui.controls.entry_count();
    let mut out: Vec<String> = Vec::new();
    let mut i: usize = 0;
    while i < n
        invariant
            n == ui.controls.count(),
            i <= n,
            out@.len() == drawn_ids(*ui, form@, skip_children, i as int).len(),
            forall|j: int| 0 <= j < out@.len() ==> (#[trigger] out@[j])@ == drawn_ids(
                *ui,
                form@,
                skip_children,
                i as int,
            )[j],
        decreases n - i,
    {
        let k = ui.controls.entry_key(i);
        let c = ui.controls.record(i);
        let drawn = c.form_id == *form && c.visible && !(skip_children && child_of_container(&ui.controls, k))
            && !placed_on_page(&ui.pages, k);
        if drawn {
            out.push(k.clone());
        }
        i = i + 1;
    }
    out
}

/// How the main window opens. Sizes and positions are `f32` bit patterns.
pub struct WindowPlan {
    pub title: String,
    /// The inner size, unless the window opens maximized or full screen.
    pub inner_size: Option<(u32, u32)>,
    /// Where the window opens, when its start position is manual and set.
    pub position: Option<(u32, u32)>,
    pub maximized: bool,
    pub fullscreen: bool,
    pub resizable: bool,
    pub decorations: bool,
}

/// The window that the form `f` opens as the main window.
pub open spec fn window_of(f: FormSettings, p: WindowPlan) -> bool {
    &&& p.title@ == f.title@
    &&& p.inner_size == if !f.maximized && !f.fullscreen {
        Some((f.width, f.height))
    } else {
        None
    }
    &&& p.position == if f.startposition@ == "manual"@ {
        f.position
    } else {
        None
    }
    &&& p.maximized == f.maximized
    &&& p.fullscreen == f.fullscreen
    &&& p.resizable == f.resizable
    &&& p.decorations == f.border
}

/// The start of `runapp(form)`: the form becomes visible, the window loop is
/// marked as running (so that `exit` can reach it), and the main window's
/// plan comes back.
pub fn start_app(ui: &mut Ui, args: Vec<Value>) -> (r: Result<WindowPlan, String>)
    ensures
        args.len() != 1 ==> fails_with(r, arity_message("runapp"@, "1 argument"@, args.len() as nat))
            && *final(ui) == *old(ui),
        args.len() == 1 ==> match args@[0] {
            Value::FormObject(ids) => {
                let id = ids@;
                if old(ui).forms@.contains_key(id) {
                    let f = FormSettings { visible: true, ..old(ui).forms@[id] };
                    &&& r matches Ok(p) && window_of(f, p)
                    &&& final(ui).forms@ == old(ui).forms@.insert(id, f)
                    &&& final(ui).form_visibilities@ == if old(ui).form_visibilities@.contains_key(id) {
                        old(ui).form_visibilities@.insert(id, true)
                    } else {
                        old(ui).form_visibilities@
                    }
                    &&& *final(ui) == (Ui {
                        forms: final(ui).forms,
                        form_visibilities: final(ui).form_visibilities,
                        running: true,
                        exit_requested: false,
                        ..*old(ui)
                    })
                } else {
                    fails_with(r, "Form not found"@) && *final(ui) == *old(ui)
                }
            },
            _ => fails_with(r, expects("runapp"@, "a Form identifier"@)) && *final(ui) == *old(ui),
        },
{
    if args.len() != 1 {
        return Err(arity_error("runapp", "1 argument", args.len()));
    }
    let id = match &args[0] {
        Value::FormObject(id) => id,
        _ => return Err(expects_error("runapp", "a Form identifier")),
    };
    let slot = match ui.forms.find(id) {
        Some(i) => i,
        None => return Err(text("Form not found")),
    };
    let f = ui.forms.value_mut(slot);
    f.visible = true;
    let plan = WindowPlan {
        title: f.title.clone(),
        inner_size: if !f.maximized && !f.fullscreen {
            Some((f.width, f.height))
        } else {
            None
        },
        position: if same_text(&f.startposition, "manual") {
            f.position
        } else {
            None
        },
        maximized: f.maximized,
        fullscreen: f.fullscreen,
        resizable: f.resizable,
        decorations: f.border,
    };
    match ui.form_visibilities.find(id) {
        Some(j) => {
            let v = ui.form_visibilities.value_mut(j);
            *v = true;
        },
        None => {},
    }
    ui.running = true;
    ui.exit_requested = false;
    Ok(plan)
}

/// The end of `runapp`: the window loop no longer runs, and `exit` has
/// nothing to reach.
pub fn finish_app(ui: &mut Ui)
    ensures
        *final(ui) == (Ui { running: false, exit_requested: false, ..*old(ui) }),
{
    ui.running = false;
    ui.exit_requested = false;
}

} // verus!
