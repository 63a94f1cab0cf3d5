//! What lies over the panes: menus, questions, windows with text or a program, and the
//! history of the prompt.

use vstd::prelude::*;
use crate::cli::words::opt_text;
use crate::server::sizes::{inside_frame, parse_popup_dim, popup_dim};
use crate::text::{
    chars_of, contains, decimal, has_substring, join, joined, number_text, range_text, stands_at, texts,
};

verus! {

/// An item of a menu.
pub struct MenuItem {
    pub label: String,
    pub command: String,
    /// Whether it is a line between items.
    pub is_separator: bool,
}

/// A menu.
pub struct Menu {
    pub items: Vec<MenuItem>,
    pub selected: usize,
}

/// The place `d` steps behind `start`, or before it, around the end of `n` places.
pub open spec fn round(start: int, d: int, n: int, forward: bool) -> int {
    if forward {
        if start + d < n {
            start + d
        } else {
            start + d - n
        }
    } else if d <= start {
        start - d
    } else {
        start + n - d
    }
}

/// Whether the selection that moves one step comes to `to`: to the first item behind, or
/// before, that is no line between items; to the nearest place where there is none.
pub open spec fn comes_to(items: Seq<MenuItem>, from: int, to: int, forward: bool) -> bool {
    let n = items.len() as int;
    let start = round(from, 1, n, forward);
    exists|d: int| #[trigger] lands(items, start, d, to, forward)
}

/// Whether the selection stops `d` steps behind the nearest place.
pub open spec fn lands(items: Seq<MenuItem>, start: int, d: int, to: int, forward: bool) -> bool {
    let n = items.len() as int;
    &&& 0 <= d < n
    &&& to == round(start, d, n, forward)
    &&& forall|e: int|
        0 <= e < d ==> (#[trigger] items[round(start, e, n, forward)]).is_separator
    &&& items[to].is_separator ==> d == 0 && forall|k: int|
        0 <= k < n ==> (#[trigger] items[k]).is_separator
}

impl Menu {
    /// Whether the selection is one of the items.
    pub open spec fn wf(self) -> bool {
        self.selected < self.items@.len() || self.items@.len() == 0
    }

    /// Moves the selection down or up, over the lines between items. Tells whether there is
    /// anything to move over.
    pub fn navigate(&mut self, down: bool) -> (r: bool)
        requires
            old(self).wf(),
        ensures
            final(self).wf(),
            final(self).items == old(self).items,
            r == (old(self).items@.len() > 0),
            !r ==> *final(self) == *old(self),
            r ==> comes_to(old(self).items@, old(self).selected as int, final(self).selected as int, down),
    {
        let n: usize = self.items.len();
        if n == 0 {
            return false;
        }
        let start: usize = step(self.selected, n, down);
        let mut at: usize = start;
        let ghost mut d: int = 0;
        let ghost items = self.items@;
        while self.items[at].is_separator
            invariant_except_break
                *self == *old(self),
                items == self.items@,
                n == items.len(),
                0 <= d < n,
                start < n,
                at < n,
                at == round(start as int, d, n as int, down),
                forall|e: int|
                    0 <= e < d ==> (#[trigger] items[round(start as int, e, n as int, down)]).is_separator,
            ensures
                *self == *old(self),
                items == self.items@,
                at < n,
                lands(items, start as int, d, at as int, down),
            decreases n - d,
        {
            let next: usize = step(at, n, down);
            assert(next == round(start as int, d + 1, n as int, down));
            if next == start {
                assert(d + 1 == n);
                assert forall|k: int| 0 <= k < n implies (#[trigger] items[k]).is_separator by {
                    let e = if down {
                        if k >= start {
                            k - start
                        } else {
                            k - start + n
                        }
                    } else if k <= start {
                        start - k
                    } else {
                        start - k + n
                    };
                    assert(0 <= e < n);
                    assert(round(start as int, e, n as int, down) == k);
                    assert(e < d || e == d);
                }
                proof {
                    d = 0;
                }
                at = next;
                break;
            }
            at = next;
            proof {
                d = d + 1;
            }
        }
        self.selected = at;
        true
    }

    /// The command of an item, which is run as the menu closes. A line between items and an
    /// item without a command have none.
    pub fn select(&self, index: usize) -> (r: Option<String>)
        ensures
            opt_text(r) == (if index < self.items@.len() && !self.items@[index as int].is_separator
                && self.items@[index as int].command@.len() > 0 {
                Some(self.items@[index as int].command@)
            } else {
                None
            }),
    {
        if index < self.items.len() && !self.items[index].is_separator
            && self.items[index].command.as_str().unicode_len() > 0 {
            Some(self.items[index].command.clone())
        } else {
            None
        }
    }
}

fn step(at: usize, n: usize, forward: bool) -> (r: usize)
    requires
        at < n,
    ensures
        r == round(at as int, 1, n as int, forward),
        r < n,
{
    if forward {
        if at + 1 == n {
            0
        } else {
            at + 1
        }
    } else if at == 0 {
        n - 1
    } else {
        at - 1
    }
}

/// The selection never stops at a line between items while there is anything else.
pub proof fn selection_is_an_item(items: Seq<MenuItem>, from: int, to: int, down: bool, k: int)
    requires
        comes_to(items, from, to, down),
        0 <= k < items.len(),
        !items[k].is_separator,
    ensures
        !items[to].is_separator,
{
    let n = items.len() as int;
    let start = round(from, 1, n, down);
    let d = choose|d: int| #[trigger] lands(items, start, d, to, down);
    assert(lands(items, start, d, to, down));
}

/// A text without the question marks at its end.
pub open spec fn without_question(s: Seq<char>) -> Seq<char>
    decreases s.len(),
{
    if s.len() > 0 && s.last() == '?' {
        without_question(s.drop_last())
    } else {
        s
    }
}

/// The question before a command is run.
pub open spec fn question(prompt: Seq<char>, command: Seq<char>) -> Seq<char> {
    if prompt.len() == 0 {
        "Confirm: "@ + command + "? (y/n)"@
    } else if has_substring(prompt, "(y/n)"@) {
        prompt
    } else {
        without_question(prompt) + "? (y/n)"@
    }
}

/// The question before a command is run: the given one, or one that names the command. It
/// always tells how it is answered.
pub fn confirm_prompt(prompt: &str, command: &str) -> (r: String)
    ensures
        r@ == question(prompt@, command@),
{
    if prompt.unicode_len() == 0 {
        let mut s = "Confirm: ".to_owned();
        s.append(command);
        s.append("? (y/n)");
        return s;
    }
    if contains(prompt, "(y/n)") {
        return prompt.to_owned();
    }
    let v = chars_of(prompt);
    let mut to: usize = v.len();
    assert(v@.subrange(0, to as int) =~= v@);
    while to > 0 && v[to - 1] == '?'
        invariant
            to <= v.len(),
            without_question(v@.subrange(0, to as int)) == without_question(v@),
        decreases to,
    {
        assert(v@.subrange(0, to as int).drop_last() =~= v@.subrange(0, to - 1));
        to -= 1;
    }
    let mut s = range_text(&v, 0, to);
    s.append("? (y/n)");
    s
}

/// Every question tells how it is answered.
pub proof fn question_tells_the_answers(prompt: Seq<char>, command: Seq<char>)
    ensures
        has_substring(question(prompt, command), "(y/n)"@),
{
    reveal_strlit("(y/n)");
    reveal_strlit("? (y/n)");
    let q = question(prompt, command);
    if prompt.len() == 0 || !has_substring(prompt, "(y/n)"@) {
        let at = q.len() - 5;
        assert(q.subrange(at as int, at + 5) =~= "(y/n)"@);
        assert(stands_at(q, "(y/n)"@, at as int));
    }
}

/// What lies over the panes, or what is done in them.
#[derive(Clone, Copy, PartialEq, Eq, Structural, Debug)]
pub enum ScreenMode {
    Passthrough,
    Popup,
    Menu,
    Confirm,
    PaneNumbers,
    Clock,
    Customize,
    Copy,
    CommandPrompt,
    Other,
}

/// What there is once what lies over the panes is closed. Copying and typing a command are no
/// such thing, and go on.
pub fn overlay_close(mode: ScreenMode) -> (r: ScreenMode)
    ensures
        (mode == ScreenMode::Popup || mode == ScreenMode::Menu || mode == ScreenMode::Confirm || mode
            == ScreenMode::PaneNumbers || mode == ScreenMode::Clock || mode == ScreenMode::Customize) ==> r
            == ScreenMode::Passthrough,
        !(mode == ScreenMode::Popup || mode == ScreenMode::Menu || mode == ScreenMode::Confirm || mode
            == ScreenMode::PaneNumbers || mode == ScreenMode::Clock || mode == ScreenMode::Customize) ==> r
            == mode,
{
    match mode {
        ScreenMode::Popup
        | ScreenMode::Menu
        | ScreenMode::Confirm
        | ScreenMode::PaneNumbers
        | ScreenMode::Clock
        | ScreenMode::Customize => ScreenMode::Passthrough,
        other => other,
    }
}

/// What is done with what is typed into a window over the panes.
#[derive(Clone, Copy, PartialEq, Eq, Structural, Debug)]
pub enum PopupAction {
    Close,
    /// The program gets it.
    Write,
    Nothing,
}

/// What is done with what is typed into a window over the panes: a program that runs gets it;
/// where none runs, the letter `q` closes the window.
pub fn popup_input(program_runs: bool, data: &Vec<u8>) -> (r: PopupAction)
    ensures
        r == (if program_runs {
            PopupAction::Write
        } else if data@ == seq![0x71u8] {
            PopupAction::Close
        } else {
            PopupAction::Nothing
        }),
{
    if program_runs {
        return PopupAction::Write;
    }
    if data.len() == 1 && data[0] == 0x71 {
        assert(data@ =~= seq![0x71u8]);
        PopupAction::Close
    } else {
        PopupAction::Nothing
    }
}

/// A window over the panes that is to be opened.
pub struct PopupPlan {
    pub width: u16,
    pub height: u16,
    /// The size of what is inside its frame.
    pub inside: (u16, u16),
    /// Whether a program is started in it.
    pub starts_program: bool,
    /// Whether it closes as the program ends.
    pub close_on_exit: bool,
    /// What is written in it where there is no program.
    pub output: String,
}

/// Plans a window over the panes. The sizes are given as texts, and `terminal` is the size of
/// the windows.
pub fn display_popup(
    command: &str,
    width: &str,
    height: &str,
    close_on_exit: bool,
    terminal: (u16, u16),
) -> (r: PopupPlan)
    ensures
        r.width == popup_dim(width@, terminal.0, 80),
        r.height == popup_dim(height@, terminal.1, 24),
        r.inside.0 == (if r.width < 2 {
            0
        } else {
            r.width - 2
        }),
        r.inside.1 == (if r.height < 2 {
            0
        } else {
            r.height - 2
        }),
        r.starts_program == (command@.len() > 0),
        r.close_on_exit == (close_on_exit || command@.len() == 0),
        r.output@ == (if command@.len() == 0 {
            "Press 'q' or Escape to close\n"@
        } else {
            ""@
        }),
{
    let w: u16 = parse_popup_dim(width, terminal.0, 80);
    let h: u16 = parse_popup_dim(height, terminal.1, 24);
    let starts: bool = command.unicode_len() > 0;
    PopupPlan {
        width: w,
        height: h,
        inside: inside_frame(w, h),
        starts_program: starts,
        close_on_exit: close_on_exit || !starts,
        output: if starts {
            "".to_owned()
        } else {
            "Press 'q' or Escape to close\n".to_owned()
        },
    }
}

/// The lines of the history of the prompt.
pub open spec fn history_entries(history: Seq<Seq<char>>) -> Seq<Seq<char>> {
    Seq::new(history.len(), |i: int| decimal(i as nat) + ": "@ + history[i])
}

/// The history of the prompt, each command with its number.
pub fn prompt_history(history: &Vec<String>) -> (r: String)
    ensures
        r@ == (if history@.len() == 0 {
            "(no prompt history)\n"@
        } else {
            joined(history_entries(texts(history@)), "\n"@)
        }),
{
    if history.len() == 0 {
        return "(no prompt history)\n".to_owned();
    }
    let ghost all = history_entries(texts(history@));
    let mut parts: Vec<String> = Vec::new();
    let mut i: usize = 0;
    assert(texts(parts@) =~= all.take(0));
    while i < history.len()
        invariant
            i <= history.len(),
            all == history_entries(texts(history@)),
            texts(parts@) == all.take(i as int),
        decreases history.len() - i,
    {
        let mut line = number_text(i as u64);
        line.append(": ");
        line.append(history[i].as_str());
        let ghost done = texts(parts@);
        let ghost text = line@;
        parts.push(line);
        assert(texts(parts@) =~= done.push(text));
        assert(all.take(i + 1) =~= all.take(i as int).push(all[i as int]));
        assert(all[i as int] == text);
        i += 1;
    }
    assert(all.take(i as int) =~= all);
    join(&parts, "\n")
}

/// What comes of an answer to the question before a command is run: the question is closed, and
/// the command is run if the answer is yes. Where there is no question, nothing happens.
pub fn confirm_respond(mode: ScreenMode, command: &str, yes: bool) -> (r: (ScreenMode, Option<String>))
    ensures
        r.0 == (if mode == ScreenMode::Confirm {
            ScreenMode::Passthrough
        } else {
            mode
        }),
        opt_text(r.1) == (if mode == ScreenMode::Confirm && yes {
            Some(command@)
        } else {
            None
        }),
{
    match mode {
        ScreenMode::Confirm => (
            ScreenMode::Passthrough,
            if yes {
                Some(command.to_owned())
            } else {
                None
            },
        ),
        other => (other, None),
    }
}

} // verus!
