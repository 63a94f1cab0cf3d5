//! Clients in control mode: what they are told of the session, of the output of its panes
//! and of the formats that they subscribe to.

use std::collections::{HashMap, HashSet};
use vstd::prelude::*;
use crate::cli::words::opt_text;
use crate::dict::{Dict, Entry};
use crate::server::clients::{tty_name, tty_of};
use crate::text::same;

verus! {

/// What a client in control mode is told.
pub enum Notification {
    /// A pane put something out.
    Output { pane: usize, data: String },
    /// A pane put something out, so long after its output before that.
    ExtendedOutput { pane: usize, age_ms: u64, data: String },
    /// The output of a pane is held back from now on.
    Pause { pane: usize },
    /// The output of a pane comes again.
    Continue { pane: usize },
    WindowAdd { window: usize },
    WindowClose { window: usize },
    WindowRenamed { window: usize, name: String },
    /// Another window of the session has the focus.
    SessionWindowChanged { session: usize, window: usize },
    /// Another pane of a window has the focus.
    WindowPaneChanged { window: usize, pane: usize },
    SessionRenamed { name: String },
    SessionChanged { session: usize, name: String },
    /// A client is gone: the one with the number, where it is known.
    ClientDetached { id: Option<u64> },
    LayoutChange { window: usize, layout: String },
    /// What a format stands for has changed.
    SubscriptionChanged {
        name: String,
        session: usize,
        window: usize,
        window_index: usize,
        pane: usize,
        value: String,
    },
    /// The session ends, for a reason where there is one to tell.
    Exit { reason: Option<String> },
}

/// A format that a client subscribes to.
pub struct Subscription {
    pub target: String,
    pub format: String,
}

/// A client in control mode.
pub struct ControlClient {
    pub id: u64,
    /// Whether what the client sends is sent back.
    pub echo: bool,
    /// The panes whose output the client does not want.
    pub unwanted: HashSet<usize>,
    /// The panes whose output is held back since the client fell behind.
    pub held_back: HashSet<usize>,
    /// After how many seconds a client has fallen behind.
    pub pause_after: Option<u64>,
    /// When each pane last put something out, in milliseconds.
    pub last_output: HashMap<usize, u64>,
    pub subscriptions: Dict<Subscription>,
    /// What the formats stood for when the client was last told.
    pub values: Dict<String>,
    /// When the formats were last looked at, in milliseconds.
    pub checked: Dict<u64>,
}

/// What decides whether a client gets the output of a pane.
pub struct OutputState {
    pub unwanted: Set<usize>,
    pub held_back: Set<usize>,
    pub pause_after: Option<u64>,
    pub last_output: Map<usize, u64>,
}

/// What a client gets of a pane's output.
pub enum Delivery {
    /// Nothing.
    Dropped,
    /// The output.
    Plain,
    /// The output, with how long after the output before it came.
    Aged { age_ms: u64 },
    /// Word that the output is held back.
    Paused,
}

/// How long a pane had put nothing out, in milliseconds.
pub open spec fn output_age(s: OutputState, pane: usize, now: u64) -> u64 {
    if s.last_output.dom().contains(pane) && s.last_output[pane] < now {
        (now - s.last_output[pane]) as u64
    } else {
        0
    }
}

/// What a client gets when a pane puts something out.
pub open spec fn delivery(s: OutputState, pane: usize, now: u64) -> Delivery {
    if s.unwanted.contains(pane) || s.held_back.contains(pane) {
        Delivery::Dropped
    } else {
        match s.pause_after {
            None => Delivery::Plain,
            Some(secs) => if output_age(s, pane, now) / 1000 >= secs {
                Delivery::Paused
            } else {
                Delivery::Aged { age_ms: output_age(s, pane, now) }
            },
        }
    }
}

/// What is remembered once a pane put something out.
pub open spec fn after_output(s: OutputState, pane: usize, now: u64) -> OutputState {
    match delivery(s, pane, now) {
        Delivery::Dropped | Delivery::Plain => s,
        Delivery::Aged { age_ms } => OutputState { last_output: s.last_output.insert(pane, now), ..s },
        Delivery::Paused => OutputState {
            last_output: s.last_output.insert(pane, now),
            held_back: s.held_back.insert(pane),
            ..s
        },
    }
}

/// The notification that delivers output.
pub open spec fn delivered(d: Delivery, pane: usize, data: String) -> Option<Notification> {
    match d {
        Delivery::Dropped => None,
        Delivery::Plain => Some(Notification::Output { pane, data }),
        Delivery::Aged { age_ms } => Some(Notification::ExtendedOutput { pane, age_ms, data }),
        Delivery::Paused => Some(Notification::Pause { pane }),
    }
}

/// Whether a format is to be looked at: it was not within the last second.
pub open spec fn is_due(checked: Map<Seq<char>, u64>, name: Seq<char>, now: u64) -> bool {
    !checked.dom().contains(name) || (now > checked[name] && (now - checked[name]) / 1000 >= 1)
}

/// The names and formats of the subscriptions that are to be looked at.
pub open spec fn due_formats(
    subscriptions: Seq<Entry<Subscription>>,
    checked: Map<Seq<char>, u64>,
    now: u64,
) -> Seq<(Seq<char>, Seq<char>)>
    decreases subscriptions.len(),
{
    if subscriptions.len() == 0 {
        Seq::empty()
    } else {
        let rest = due_formats(subscriptions.drop_last(), checked, now);
        let e = subscriptions.last();
        if is_due(checked, e.key@, now) {
            rest.push((e.key@, e.value.format@))
        } else {
            rest
        }
    }
}

/// When formats were last looked at, once the given ones were.
pub open spec fn checked_after(
    checked: Map<Seq<char>, u64>,
    due: Seq<(Seq<char>, Seq<char>)>,
    now: u64,
) -> Map<Seq<char>, u64>
    decreases due.len(),
{
    if due.len() == 0 {
        checked
    } else {
        checked_after(checked, due.drop_last(), now).insert(due.last().0, now)
    }
}

/// Whether a value differs from the one that a client was last told.
pub open spec fn is_news(values: Map<Seq<char>, String>, name: Seq<char>, value: Seq<char>) -> bool {
    !(values.dom().contains(name) && values[name]@ == value)
}

/// Names with formats, as texts.
pub open spec fn pair_texts(v: Seq<(String, String)>) -> Seq<(Seq<char>, Seq<char>)> {
    Seq::new(v.len(), |i: int| (v[i].0@, v[i].1@))
}

impl ControlClient {
    /// Whether the dictionaries are well formed.
    pub open spec fn wf(self) -> bool {
        self.subscriptions.wf() && self.values.wf() && self.checked.wf()
    }

    /// What decides whether the client gets the output of a pane.
    pub open spec fn output(self) -> OutputState {
        OutputState {
            unwanted: self.unwanted@,
            held_back: self.held_back@,
            pause_after: self.pause_after,
            last_output: self.last_output@,
        }
    }

    /// Whether nothing but the delivery of output differs.
    pub open spec fn same_but_output(self, other: ControlClient) -> bool {
        &&& self.id == other.id
        &&& self.echo == other.echo
        &&& self.subscriptions == other.subscriptions
        &&& self.values == other.values
        &&& self.checked == other.checked
    }

    /// Whether nothing but the subscriptions differs.
    pub open spec fn same_but_subscriptions(self, other: ControlClient) -> bool {
        &&& self.id == other.id
        &&& self.echo == other.echo
        &&& self.output() == other.output()
    }

    /// A client that has just attached.
    pub fn new(id: u64, echo: bool) -> (c: ControlClient)
        ensures
            c.wf(),
            c.id == id && c.echo == echo,
            c.output() == (OutputState {
                unwanted: Set::empty(),
                held_back: Set::empty(),
                pause_after: None,
                last_output: Map::empty(),
            }),
            c.subscriptions.map() == Map::<Seq<char>, Subscription>::empty(),
            c.values.map() == Map::<Seq<char>, String>::empty(),
            c.checked.map() == Map::<Seq<char>, u64>::empty(),
    {
        ControlClient {
            id,
            echo,
            unwanted: HashSet::new(),
            held_back: HashSet::new(),
            pause_after: None,
            last_output: HashMap::new(),
            subscriptions: Dict::new(),
            values: Dict::new(),
            checked: Dict::new(),
        }
    }

    /// Delivers the output of a pane, or holds it back where the client has fallen behind.
    pub fn deliver(&mut self, pane: usize, data: String, now: u64) -> (r: Option<Notification>)
        requires
            old(self).wf(),
        ensures
            final(self).wf(),
            final(self).same_but_output(*old(self)),
            final(self).output() == after_output(old(self).output(), pane, now),
            r == delivered(delivery(old(self).output(), pane, now), pane, data),
    {
        broadcast use vstd::std_specs::hash::group_hash_axioms;

        if self.unwanted.contains(&pane) || self.held_back.contains(&pane) {
            return None;
        }
        match self.pause_after {
            None => Some(Notification::Output { pane, data }),
            Some(secs) => {
                let age_ms: u64 = match self.last_output.get(&pane) {
                    Some(last) => if *last < now {
                        now - *last
                    } else {
                        0
                    },
                    None => 0,
                };
                let _ = self.last_output.insert(pane, now);
                if age_ms / 1000 >= secs {
                    let _ = self.held_back.insert(pane);
                    Some(Notification::Pause { pane })
                } else {
                    Some(Notification::ExtendedOutput { pane, age_ms, data })
                }
            },
        }
    }

    /// Sets after how many seconds a client has fallen behind. Where it cannot fall behind
    /// any more, no output is held back.
    pub fn set_pause_after(&mut self, secs: Option<u64>)
        requires
            old(self).wf(),
        ensures
            final(self).wf(),
            final(self).same_but_output(*old(self)),
            final(self).output() == (if secs is Some {
                OutputState { pause_after: secs, ..old(self).output() }
            } else {
                OutputState {
                    pause_after: None,
                    held_back: Set::empty(),
                    last_output: Map::empty(),
                    ..old(self).output()
                }
            }),
    {
        self.pause_after = secs;
        if secs.is_none() {
            self.held_back.clear();
            self.last_output.clear();
        }
    }

    /// Lets the output of a pane come again. The client is told if it was held back.
    pub fn continue_pane(&mut self, pane: usize) -> (r: Option<Notification>)
        requires
            old(self).wf(),
        ensures
            final(self).wf(),
            final(self).same_but_output(*old(self)),
            final(self).output() == (OutputState {
                held_back: old(self).output().held_back.remove(pane),
                ..old(self).output()
            }),
            r == (if old(self).output().held_back.contains(pane) {
                Some(Notification::Continue { pane })
            } else {
                None
            }),
    {
        broadcast use vstd::std_specs::hash::group_hash_axioms;

        if self.held_back.remove(&pane) {
            Some(Notification::Continue { pane })
        } else {
            None
        }
    }

    /// Subscribes to a format. What it stands for is told anew.
    pub fn subscribe(&mut self, name: String, target: String, format: String)
        requires
            old(self).wf(),
        ensures
            final(self).wf(),
            final(self).same_but_subscriptions(*old(self)),
            final(self).subscriptions.map() == old(self).subscriptions.map().insert(
                name@,
                (Subscription { target, format }),
            ),
            final(self).values.map() == old(self).values.map().remove(name@),
            final(self).checked.map() == old(self).checked.map().remove(name@),
    {
        let _ = self.values.remove(name.as_str());
        let _ = self.checked.remove(name.as_str());
        self.subscriptions.insert(name, Subscription { target, format });
    }

    /// Ends a subscription.
    pub fn unsubscribe(&mut self, name: &str)
        requires
            old(self).wf(),
        ensures
            final(self).wf(),
            final(self).same_but_subscriptions(*old(self)),
            final(self).subscriptions.map() == old(self).subscriptions.map().remove(name@),
            final(self).values.map() == old(self).values.map().remove(name@),
            final(self).checked.map() == old(self).checked.map().remove(name@),
    {
        let _ = self.subscriptions.remove(name);
        let _ = self.values.remove(name);
        let _ = self.checked.remove(name);
    }

    fn due(&self, now: u64) -> (r: Vec<(String, String)>)
        requires
            self.wf(),
        ensures
            pair_texts(r@) == due_formats(self.subscriptions.entries@, self.checked.map(), now),
    {
        let mut r: Vec<(String, String)> = Vec::new();
        let ghost all = self.subscriptions.entries@;
        let ghost map = self.checked.map();
        let mut i: usize = 0;
        assert(pair_texts(r@) =~= Seq::empty());
        while i < self.subscriptions.entries.len()
            invariant
                i <= self.subscriptions.entries.len(),
                self.wf(),
                all == self.subscriptions.entries@,
                map == self.checked.map(),
                pair_texts(r@) == due_formats(all.take(i as int), map, now),
            decreases self.subscriptions.entries.len() - i,
        {
            let name = self.subscriptions.entries[i].key.clone();
            let due: bool = match self.checked.get(name.as_str()) {
                Some(last) => now > *last && (now - *last) / 1000 >= 1,
                None => true,
            };
            let ghost done = pair_texts(r@);
            assert(all.take(i + 1).drop_last() =~= all.take(i as int));
            if due {
                let format = self.subscriptions.entries[i].value.format.clone();
                r.push((name, format));
                assert(pair_texts(r@) =~= done.push((all[i as int].key@, all[i as int].value.format@)));
            }
            i += 1;
        }
        assert(all.take(i as int) =~= all);
        r
    }

    /// The names and formats of the subscriptions that are to be looked at now. Each is
    /// looked at once in a second at most.
    pub fn check_subscriptions(&mut self, now: u64) -> (r: Vec<(String, String)>)
        requires
            old(self).wf(),
        ensures
            final(self).wf(),
            final(self).same_but_subscriptions(*old(self)),
            final(self).subscriptions == old(self).subscriptions,
            final(self).values == old(self).values,
            pair_texts(r@) == due_formats(
                old(self).subscriptions.entries@,
                old(self).checked.map(),
                now,
            ),
            final(self).checked.map() == checked_after(old(self).checked.map(), pair_texts(r@), now),
    {
        let due = self.due(now);
        let ghost views = pair_texts(due@);
        let mut i: usize = 0;
        while i < due.len()
            invariant
                i <= due.len(),
                self.wf(),
                self.same_but_subscriptions(*old(self)),
                self.subscriptions == old(self).subscriptions,
                self.values == old(self).values,
                views == pair_texts(due@),
                self.checked.map() == checked_after(old(self).checked.map(), views.take(i as int), now),
            decreases due.len() - i,
        {
            let name = due[i].0.clone();
            self.checked.insert(name, now);
            assert(views.take(i + 1).drop_last() =~= views.take(i as int));
            assert(views[i as int].0 == due@[i as int].0@);
            i += 1;
        }
        assert(views.take(i as int) =~= views);
        due
    }

    /// Takes in what a format stands for now, and tells whether that has changed since the
    /// client was last told.
    pub fn take_value(&mut self, name: &str, value: &str) -> (changed: bool)
        requires
            old(self).wf(),
        ensures
            final(self).wf(),
            final(self).same_but_subscriptions(*old(self)),
            final(self).subscriptions == old(self).subscriptions,
            final(self).checked == old(self).checked,
            changed == is_news(old(self).values.map(), name@, value@),
            !changed ==> final(self).values == old(self).values,
            changed ==> final(self).values.map() == old(self).values.map().insert(
                name@,
                final(self).values.map()[name@],
            ) && final(self).values.map()[name@]@ == value@,
    {
        let changed: bool = match self.values.get(name) {
            Some(before) => !same(before.as_str(), value),
            None => true,
        };
        if changed {
            self.values.insert(name.to_owned(), value.to_owned());
        }
        changed
    }
}

/// A pane whose output is held back delivers nothing until it is let go on; then it
/// delivers again.
pub proof fn held_output_waits(s: OutputState, pane: usize, now: u64, later: u64)
    requires
        delivery(s, pane, now) is Paused,
    ensures
        delivery(after_output(s, pane, now), pane, later) is Dropped,
        ({
            let t = after_output(s, pane, now);
            let u = OutputState { held_back: t.held_back.remove(pane), ..t };
            delivery(u, pane, later) !is Dropped
        }),
{
}

/// Output of one pane never changes what is delivered of another.
pub proof fn panes_are_independent(s: OutputState, pane: usize, other: usize, now: u64, later: u64)
    requires
        pane != other,
    ensures
        delivery(after_output(s, pane, now), other, later) == delivery(s, other, later),
{
}

/// A value that was told is not told again while it stays the same.
pub proof fn known_value_is_not_told_again(
    values: Map<Seq<char>, String>,
    name: Seq<char>,
    value: String,
)
    ensures
        !is_news(values.insert(name, value), name, value@),
{
}

/// The notification that goes with an event, where one does: `window` and `pane` are those
/// that have the focus.
pub open spec fn event_notification(
    event: Seq<char>,
    session: usize,
    window: usize,
    pane: usize,
    window_name: String,
    session_name: String,
    layout: String,
) -> Option<Notification> {
    if event == "after-new-window"@ || event == "window-linked"@ {
        Some(Notification::WindowAdd { window })
    } else if event == "after-kill-pane"@ || event == "window-closed"@ || event == "window-unlinked"@ {
        Some(Notification::WindowClose { window })
    } else if event == "after-rename-window"@ {
        Some(Notification::WindowRenamed { window, name: window_name })
    } else if event == "after-select-window"@ {
        Some(Notification::SessionWindowChanged { session, window })
    } else if event == "after-select-pane"@ {
        Some(Notification::WindowPaneChanged { window, pane })
    } else if event == "after-rename-session"@ {
        Some(Notification::SessionRenamed { name: session_name })
    } else if event == "client-attached"@ {
        Some(Notification::SessionChanged { session, name: session_name })
    } else if event == "client-detached"@ {
        Some(Notification::ClientDetached { id: None })
    } else if changes_layout(event) {
        Some(Notification::LayoutChange { window, layout })
    } else {
        None
    }
}

/// Whether an event changes how the panes lie.
pub open spec fn changes_layout(event: Seq<char>) -> bool {
    event == "after-split-window"@ || event == "after-resize-pane"@ || event == "after-break-pane"@ || event
        == "after-join-pane"@ || event == "after-rotate-window"@ || event == "after-swap-pane"@
}

/// The notification that goes with an event, where one does.
pub fn notification_of(
    event: &str,
    session: usize,
    window: usize,
    pane: usize,
    window_name: String,
    session_name: String,
    layout: String,
) -> (r: Option<Notification>)
    ensures
        r == event_notification(event@, session, window, pane, window_name, session_name, layout),
{
    if same(event, "after-new-window") || same(event, "window-linked") {
        Some(Notification::WindowAdd { window })
    } else if same(event, "after-kill-pane") || same(event, "window-closed") || same(
        event,
        "window-unlinked",
    ) {
        Some(Notification::WindowClose { window })
    } else if same(event, "after-rename-window") {
        Some(Notification::WindowRenamed { window, name: window_name })
    } else if same(event, "after-select-window") {
        Some(Notification::SessionWindowChanged { session, window })
    } else if same(event, "after-select-pane") {
        Some(Notification::WindowPaneChanged { window, pane })
    } else if same(event, "after-rename-session") {
        Some(Notification::SessionRenamed { name: session_name })
    } else if same(event, "client-attached") {
        Some(Notification::SessionChanged { session, name: session_name })
    } else if same(event, "client-detached") {
        Some(Notification::ClientDetached { id: None })
    } else if same(event, "after-split-window") || same(event, "after-resize-pane") || same(
        event,
        "after-break-pane",
    ) || same(event, "after-join-pane") || same(event, "after-rotate-window") || same(
        event,
        "after-swap-pane",
    ) {
        Some(Notification::LayoutChange { window, layout })
    } else {
        None
    }
}

/// The name under which control clients are told of a client that is gone.
pub open spec fn gone_client(id: Option<u64>) -> Seq<char> {
    match id {
        Some(n) => tty_name(n),
        None => "client"@,
    }
}

/// The name under which control clients are told of a client that is gone.
pub fn gone_client_name(id: Option<u64>) -> (r: String)
    ensures
        r@ == gone_client(id),
{
    match id {
        Some(n) => tty_of(n),
        None => "client".to_owned(),
    }
}

/// What is known of a window before and after dead panes are taken away.
#[derive(Clone, Copy, PartialEq, Eq, Structural, Debug)]
pub struct WindowState {
    pub id: usize,
    /// The pane that has the focus.
    pub active: Option<usize>,
    /// How many panes there are.
    pub panes: usize,
}

/// What clients are told once dead panes were taken away.
#[derive(Clone, Copy, PartialEq, Eq, Structural, Debug)]
pub enum ReapNote {
    /// The panes of a window lie in another way.
    LayoutChanged { window: usize },
    /// Another pane of a window has the focus.
    PaneChanged { window: usize, pane: usize },
    /// A window is gone.
    Closed { window: usize },
    /// Another window of the session has the focus.
    WindowChanged { window: usize },
}

/// The first window with a number.
pub open spec fn window_state(after: Seq<WindowState>, id: usize, i: int) -> Option<WindowState>
    decreases after.len() - i,
{
    if i < 0 || i >= after.len() {
        None
    } else if after[i].id == id {
        Some(after[i])
    } else {
        window_state(after, id, i + 1)
    }
}

/// What is told of one window.
pub open spec fn window_notes(before: WindowState, after: Seq<WindowState>) -> Seq<ReapNote> {
    match window_state(after, before.id, 0) {
        None => seq![ReapNote::Closed { window: before.id }],
        Some(now) => (if now.panes != before.panes {
            seq![ReapNote::LayoutChanged { window: before.id }]
        } else {
            Seq::empty()
        }) + (if now.active != before.active && now.active is Some {
            seq![ReapNote::PaneChanged { window: before.id, pane: now.active->0 }]
        } else {
            Seq::empty()
        }),
    }
}

/// What is told of the windows.
pub open spec fn windows_notes(before: Seq<WindowState>, after: Seq<WindowState>) -> Seq<ReapNote>
    decreases before.len(),
{
    if before.len() == 0 {
        Seq::empty()
    } else {
        windows_notes(before.drop_last(), after) + window_notes(before.last(), after)
    }
}

/// What clients are told once dead panes were taken away: of each window what has changed,
/// and last whether another window has the focus.
pub open spec fn all_reap_notes(
    before: Seq<WindowState>,
    after: Seq<WindowState>,
    active_before: Option<usize>,
    active_after: Option<usize>,
) -> Seq<ReapNote> {
    windows_notes(before, after) + (if active_before is Some && active_after is Some && active_before
        != active_after {
        seq![ReapNote::WindowChanged { window: active_after->0 }]
    } else {
        Seq::empty()
    })
}

fn find_state(after: &Vec<WindowState>, id: usize) -> (r: Option<WindowState>)
    ensures
        r == window_state(after@, id, 0),
{
    let mut i: usize = 0;
    while i < after.len()
        invariant
            i <= after.len(),
            window_state(after@, id, i as int) == window_state(after@, id, 0),
        decreases after.len() - i,
    {
        if after[i].id == id {
            return Some(after[i]);
        }
        i += 1;
    }
    None
}

/// What clients are told once dead panes were taken away.
pub fn reap_notes(
    before: &Vec<WindowState>,
    after: &Vec<WindowState>,
    active_before: Option<usize>,
    active_after: Option<usize>,
) -> (r: Vec<ReapNote>)
    ensures
        r@ == all_reap_notes(before@, after@, active_before, active_after),
{
    let mut r: Vec<ReapNote> = Vec::new();
    let mut i: usize = 0;
    while i < before.len()
        invariant
            i <= before.len(),
            r@ == windows_notes(before@.take(i as int), after@),
        decreases before.len() - i,
    {
        let ghost done = r@;
        let b: WindowState = before[i];
        match find_state(after, b.id) {
            None => {
                r.push(ReapNote::Closed { window: b.id });
            },
            Some(now) => {
                if now.panes != b.panes {
                    r.push(ReapNote::LayoutChanged { window: b.id });
                }
                if now.active != b.active {
                    if let Some(pane) = now.active {
                        r.push(ReapNote::PaneChanged { window: b.id, pane });
                    }
                }
            },
        }
        assert(before@.take(i + 1).drop_last() =~= before@.take(i as int));
        assert(r@ =~= done + window_notes(b, after@));
        i += 1;
    }
    assert(before@.take(i as int) =~= before@);
    if let Some(old_id) = active_before {
        if let Some(new_id) = active_after {
            if new_id != old_id {
                r.push(ReapNote::WindowChanged { window: new_id });
            }
        }
    }
    assert(r@ =~= all_reap_notes(before@, after@, active_before, active_after));
    r
}

proof fn lemma_same_state_found(s: Seq<WindowState>, i: int, k: int)
    requires
        0 <= k <= i < s.len(),
        forall|a: int, b: int| 0 <= a < b < s.len() ==> (#[trigger] s[a]).id != (#[trigger] s[b]).id,
    ensures
        window_state(s, s[i].id, k) == Some(s[i]),
    decreases i - k,
{
    if k < i {
        assert(s[k].id != s[i].id);
        lemma_same_state_found(s, i, k + 1);
    }
}

proof fn lemma_no_notes(s: Seq<WindowState>, n: int)
    requires
        forall|a: int, b: int| 0 <= a < b < s.len() ==> (#[trigger] s[a]).id != (#[trigger] s[b]).id,
        0 <= n <= s.len(),
    ensures
        windows_notes(s.take(n), s) == Seq::<ReapNote>::empty(),
    decreases n,
{
    if n > 0 {
        lemma_no_notes(s, n - 1);
        assert(s.take(n).drop_last() =~= s.take(n - 1));
        lemma_same_state_found(s, n - 1, 0);
    }
    assert(windows_notes(s.take(n), s) =~= Seq::<ReapNote>::empty());
}

/// Where nothing has changed, nothing is told.
pub proof fn no_change_is_not_told(s: Seq<WindowState>, active: Option<usize>)
    requires
        forall|a: int, b: int| 0 <= a < b < s.len() ==> (#[trigger] s[a]).id != (#[trigger] s[b]).id,
    ensures
        all_reap_notes(s, s, active, active) == Seq::<ReapNote>::empty(),
{
    lemma_no_notes(s, s.len() as int);
    assert(s.take(s.len() as int) =~= s);
    assert(all_reap_notes(s, s, active, active) =~= Seq::<ReapNote>::empty());
}

/// The size that a client in control mode gives the windows, if it gives them another one:
/// neither side may be nothing.
pub fn control_client_resize(width: u16, height: u16, area: (u16, u16)) -> (r: Option<(u16, u16)>)
    ensures
        r == (if width > 0 && height > 0 && (width, height) != area {
            Some((width, height))
        } else {
            None
        }),
{
    if width > 0 && height > 0 && (width != area.0 || height != area.1) {
        Some((width, height))
    } else {
        None
    }
}

/// What control clients are told as a session ends, if there are any: the reason is told where
/// the server was asked to end, and none where the last window was closed.
pub fn exit_notification(clients: usize, asked: bool) -> (r: Option<Notification>)
    ensures
        if clients == 0 {
            r is None
        } else {
            r matches Some(Notification::Exit { reason }) && opt_text(reason) == (if asked {
                Some("server exited"@)
            } else {
                None
            })
        },
{
    if clients == 0 {
        return None;
    }
    let reason: Option<String> = if asked {
        Some("server exited".to_owned())
    } else {
        None
    };
    Some(Notification::Exit { reason })
}

} // verus!
