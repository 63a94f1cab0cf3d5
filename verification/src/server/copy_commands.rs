//! Commands of the mode in which text is copied: the steps that each of them takes,
//! and what the steps do to the selection.

use vstd::prelude::*;
use crate::text::{
    contains, has_prefix, has_substring, number, parse_number, same, skip, starts_with, trim, trimmed,
};

verus! {

/// What a selection takes in.
#[derive(Clone, Copy, PartialEq, Eq, Structural, Debug)]
pub enum SelectionMode {
    Char,
    Line,
    Rect,
}

/// A place on the screen.
#[derive(Clone, Copy, PartialEq, Eq, Structural, Debug)]
pub struct Place {
    pub row: u16,
    pub col: u16,
}

/// Whether text is being copied, or looked for.
#[derive(Clone, Copy, PartialEq, Eq, Structural, Debug)]
pub enum CopyMode {
    Off,
    Copy,
    Search { forward: bool },
}

/// The state of copying.
#[derive(Clone, Copy, PartialEq, Eq, Structural, Debug)]
pub struct CopyState {
    pub mode: CopyMode,
    /// Where the selection began.
    pub anchor: Option<Place>,
    /// How far the screen was scrolled then.
    pub anchor_scroll: usize,
    /// Where the cursor is.
    pub cursor: Option<Place>,
    /// How far the screen is scrolled.
    pub scroll: usize,
    pub selection: SelectionMode,
    /// A jump to a character that is to be typed yet.
    pub find_pending: Option<u8>,
}

/// A motion of the cursor.
#[derive(Clone, Copy, PartialEq, Eq, Structural, Debug)]
pub enum Motion {
    Up,
    Down,
    Left,
    Right,
    LineStart,
    LineEnd,
    FirstNonblank,
    WordForward,
    WordBackward,
    WordEnd,
    SpaceForward,
    SpaceBackward,
    SpaceEnd,
    ScreenTop,
    ScreenMiddle,
    ScreenBottom,
    HistoryTop,
    HistoryBottom,
    NextParagraph,
    PreviousParagraph,
    MatchingBracket,
}

/// A hook that copying runs.
#[derive(Clone, Copy, PartialEq, Eq, Structural, Debug)]
pub enum CopyHook {
    /// The clipboard was set.
    Clipboard,
    /// The pane's mode changed.
    Mode,
}

/// A step of a command.
#[derive(Clone, Copy, PartialEq, Eq, Structural, Debug)]
pub enum CopyStep {
    /// Begin to copy.
    Enter,
    /// Copy what is selected.
    Yank,
    /// Run a hook.
    Hook(CopyHook),
    /// Show the screen where it is not scrolled.
    ResetScrollback,
    /// Hand what was copied to the command's program.
    Pipe,
    /// Move the cursor.
    Move(Motion),
    ScrollUp { lines: usize },
    ScrollDown { lines: usize },
    SearchNext,
    SearchPrevious,
    /// Copy from the cursor to the end of the line.
    CopyEndOfLine,
    /// Put the buffer before the last one in front of it.
    AppendBuffers,
    /// Begin a selection at the cursor.
    Anchor { selection: SelectionMode, move_cursor: bool },
    /// Select the cursor's line.
    SelectLine,
    ToggleRect,
    Search { forward: bool },
    /// Let the ends of the selection change places.
    OtherEnd,
    ClearSelection,
    StopSelection,
    GotoLine { line: u16 },
    /// Jump to the character that is typed next.
    FindChar { kind: u8 },
    /// Copy no more.
    Leave { forget_anchor: bool },
}

/// The line that a command goes to.
pub open spec fn goto_target(command: Seq<char>) -> u16 {
    match number(trimmed(command.skip("goto-line"@.len() as int)), 0xFFFF) {
        Some(n) => n as u16,
        None => 0,
    }
}

/// The program that a command hands the text to.
pub open spec fn pipe_program(command: Seq<char>) -> Seq<char> {
    if has_prefix(command, "copy-pipe-and-cancel"@) {
        trimmed(command.skip("copy-pipe-and-cancel"@.len() as int))
    } else if has_prefix(command, "copy-pipe"@) {
        trimmed(command.skip("copy-pipe"@.len() as int))
    } else {
        Seq::empty()
    }
}

/// The program that a command hands the text to; empty where there is none.
pub fn pipe_program_of(command: &str) -> (r: String)
    ensures
        r@ == pipe_program(command@),
{
    if starts_with(command, "copy-pipe-and-cancel") {
        let rest = skip(command, "copy-pipe-and-cancel".unicode_len());
        trim(rest.as_str())
    } else if starts_with(command, "copy-pipe") {
        let rest = skip(command, "copy-pipe".unicode_len());
        trim(rest.as_str())
    } else {
        String::new()
    }
}

/// The steps that copying and handing on takes.
pub open spec fn pipe_steps(command: Seq<char>) -> Seq<CopyStep> {
    seq![CopyStep::Yank, CopyStep::Hook(CopyHook::Clipboard)] + (if pipe_program(command).len() > 0 {
        seq![CopyStep::Pipe]
    } else {
        Seq::empty()
    }) + (if has_substring(command, "cancel"@) {
        seq![CopyStep::Leave { forget_anchor: false }, CopyStep::Hook(CopyHook::Mode)]
    } else {
        Seq::empty()
    })
}

/// The steps that copying a line takes.
pub open spec fn line_steps(has_cursor: bool) -> Seq<CopyStep> {
    (if has_cursor {
        seq![CopyStep::SelectLine, CopyStep::Yank, CopyStep::Hook(CopyHook::Clipboard)]
    } else {
        Seq::empty()
    }) + seq![CopyStep::Leave { forget_anchor: false }, CopyStep::Hook(CopyHook::Mode)]
}

/// The steps of a command. `half` is half the height of the pane, and
/// `has_cursor` tells whether the cursor's place is known.
pub open spec fn command_steps(w: Seq<char>, half: usize, has_cursor: bool) -> Seq<CopyStep> {
    if w == "cancel"@ {
        seq![CopyStep::Leave { forget_anchor: true }, CopyStep::ResetScrollback, CopyStep::Hook(CopyHook::Mode)]
    } else if w == "begin-selection"@ {
        seq![CopyStep::Anchor { selection: SelectionMode::Char, move_cursor: true }]
    } else if w == "select-line"@ {
        seq![CopyStep::Anchor { selection: SelectionMode::Line, move_cursor: true }]
    } else if w == "rectangle-toggle"@ {
        seq![CopyStep::ToggleRect]
    } else if w == "copy-selection"@ || w == "copy-selection-no-clear"@ {
        seq![CopyStep::Yank, CopyStep::Hook(CopyHook::Clipboard)]
    } else if w == "copy-selection-and-cancel"@ {
        seq![CopyStep::Yank, CopyStep::Hook(CopyHook::Clipboard), CopyStep::Leave { forget_anchor: false }, CopyStep::Hook(CopyHook::Mode)]
    } else if has_prefix(w, "copy-pipe"@) {
        pipe_steps(w)
    } else if w == "cursor-up"@ {
        seq![CopyStep::Move(Motion::Up)]
    } else if w == "cursor-down"@ {
        seq![CopyStep::Move(Motion::Down)]
    } else if w == "cursor-left"@ {
        seq![CopyStep::Move(Motion::Left)]
    } else if w == "cursor-right"@ {
        seq![CopyStep::Move(Motion::Right)]
    } else if w == "start-of-line"@ {
        seq![CopyStep::Move(Motion::LineStart)]
    } else if w == "end-of-line"@ {
        seq![CopyStep::Move(Motion::LineEnd)]
    } else if w == "back-to-indentation"@ {
        seq![CopyStep::Move(Motion::FirstNonblank)]
    } else if w == "next-word"@ {
        seq![CopyStep::Move(Motion::WordForward)]
    } else if w == "previous-word"@ {
        seq![CopyStep::Move(Motion::WordBackward)]
    } else if w == "next-word-end"@ {
        seq![CopyStep::Move(Motion::WordEnd)]
    } else if w == "next-space"@ {
        seq![CopyStep::Move(Motion::SpaceForward)]
    } else if w == "previous-space"@ {
        seq![CopyStep::Move(Motion::SpaceBackward)]
    } else if w == "next-space-end"@ {
        seq![CopyStep::Move(Motion::SpaceEnd)]
    } else if w == "top-line"@ {
        seq![CopyStep::Move(Motion::ScreenTop)]
    } else if w == "middle-line"@ {
        seq![CopyStep::Move(Motion::ScreenMiddle)]
    } else if w == "bottom-line"@ {
        seq![CopyStep::Move(Motion::ScreenBottom)]
    } else if w == "history-top"@ {
        seq![CopyStep::Move(Motion::HistoryTop)]
    } else if w == "history-bottom"@ {
        seq![CopyStep::Move(Motion::HistoryBottom)]
    } else if w == "halfpage-up"@ {
        seq![CopyStep::ScrollUp { lines: half }]
    } else if w == "halfpage-down"@ {
        seq![CopyStep::ScrollDown { lines: half }]
    } else if w == "page-up"@ {
        seq![CopyStep::ScrollUp { lines: 20 }]
    } else if w == "page-down"@ {
        seq![CopyStep::ScrollDown { lines: 20 }]
    } else if w == "scroll-up"@ {
        seq![CopyStep::ScrollUp { lines: 1 }]
    } else if w == "scroll-down"@ {
        seq![CopyStep::ScrollDown { lines: 1 }]
    } else if w == "search-forward"@ || w == "search-forward-incremental"@ {
        seq![CopyStep::Search { forward: true }]
    } else if w == "search-backward"@ || w == "search-backward-incremental"@ {
        seq![CopyStep::Search { forward: false }]
    } else if w == "search-again"@ {
        seq![CopyStep::SearchNext]
    } else if w == "search-reverse"@ {
        seq![CopyStep::SearchPrevious]
    } else if w == "copy-end-of-line"@ {
        seq![CopyStep::CopyEndOfLine, CopyStep::Leave { forget_anchor: false }]
    } else if w == "select-word"@ {
        seq![CopyStep::Move(Motion::WordBackward), CopyStep::Anchor { selection: SelectionMode::Char, move_cursor: false }, CopyStep::Move(Motion::WordEnd)]
    } else if w == "other-end"@ {
        seq![CopyStep::OtherEnd]
    } else if w == "clear-selection"@ {
        seq![CopyStep::ClearSelection]
    } else if w == "append-selection"@ {
        seq![CopyStep::Yank, CopyStep::Hook(CopyHook::Clipboard), CopyStep::AppendBuffers]
    } else if w == "append-selection-and-cancel"@ {
        seq![CopyStep::Yank, CopyStep::Hook(CopyHook::Clipboard), CopyStep::AppendBuffers, CopyStep::Leave { forget_anchor: false }, CopyStep::Hook(CopyHook::Mode)]
    } else if w == "copy-line"@ {
        line_steps(has_cursor)
    } else if has_prefix(w, "goto-line"@) {
        seq![CopyStep::GotoLine { line: goto_target(w) }]
    } else if w == "jump-forward"@ {
        seq![CopyStep::FindChar { kind: 0 }]
    } else if w == "jump-backward"@ {
        seq![CopyStep::FindChar { kind: 1 }]
    } else if w == "jump-to-forward"@ {
        seq![CopyStep::FindChar { kind: 2 }]
    } else if w == "jump-to-backward"@ {
        seq![CopyStep::FindChar { kind: 3 }]
    } else if w == "next-paragraph"@ {
        seq![CopyStep::Move(Motion::NextParagraph)]
    } else if w == "previous-paragraph"@ {
        seq![CopyStep::Move(Motion::PreviousParagraph)]
    } else if w == "next-matching-bracket"@ {
        seq![CopyStep::Move(Motion::MatchingBracket)]
    } else if w == "stop-selection"@ {
        seq![CopyStep::StopSelection]
    } else {
        Seq::empty()
    }
}

/// The steps of a command, which begins to copy first where nothing is being
/// copied.
pub open spec fn all_steps(w: Seq<char>, in_copy: bool, half: usize, has_cursor: bool) -> Seq<CopyStep> {
    (if in_copy {
        Seq::empty()
    } else {
        seq![CopyStep::Enter]
    }) + command_steps(w, half, has_cursor)
}

fn steps_of(w: &str, half: usize, has_cursor: bool) -> (r: Vec<CopyStep>)
    ensures
        r@ == command_steps(w@, half, has_cursor),
{
    let mut v: Vec<CopyStep> = Vec::new();
    if same(w, "cancel") {
        v.push(CopyStep::Leave { forget_anchor: true });
        v.push(CopyStep::ResetScrollback);
        v.push(CopyStep::Hook(CopyHook::Mode));
    } else if same(w, "begin-selection") {
        v.push(CopyStep::Anchor { selection: SelectionMode::Char, move_cursor: true });
    } else if same(w, "select-line") {
        v.push(CopyStep::Anchor { selection: SelectionMode::Line, move_cursor: true });
    } else if same(w, "rectangle-toggle") {
        v.push(CopyStep::ToggleRect);
    } else if same(w, "copy-selection") || same(w, "copy-selection-no-clear") {
        v.push(CopyStep::Yank);
        v.push(CopyStep::Hook(CopyHook::Clipboard));
    } else if same(w, "copy-selection-and-cancel") {
        v.push(CopyStep::Yank);
        v.push(CopyStep::Hook(CopyHook::Clipboard));
        v.push(CopyStep::Leave { forget_anchor: false });
        v.push(CopyStep::Hook(CopyHook::Mode));
    } else if starts_with(w, "copy-pipe") {
        v.push(CopyStep::Yank);
        v.push(CopyStep::Hook(CopyHook::Clipboard));
        let program = pipe_program_of(w);
        if !program.as_str().is_empty() {
            v.push(CopyStep::Pipe);
        }
        if contains(w, "cancel") {
            v.push(CopyStep::Leave { forget_anchor: false });
            v.push(CopyStep::Hook(CopyHook::Mode));
        }
        assert(v@ =~= pipe_steps(w@));
    } else if same(w, "cursor-up") {
        v.push(CopyStep::Move(Motion::Up));
    } else if same(w, "cursor-down") {
        v.push(CopyStep::Move(Motion::Down));
    } else if same(w, "cursor-left") {
        v.push(CopyStep::Move(Motion::Left));
    } else if same(w, "cursor-right") {
        v.push(CopyStep::Move(Motion::Right));
    } else if same(w, "start-of-line") {
        v.push(CopyStep::Move(Motion::LineStart));
    } else if same(w, "end-of-line") {
        v.push(CopyStep::Move(Motion::LineEnd));
    } else if same(w, "back-to-indentation") {
        v.push(CopyStep::Move(Motion::FirstNonblank));
    } else if same(w, "next-word") {
        v.push(CopyStep::Move(Motion::WordForward));
    } else if same(w, "previous-word") {
        v.push(CopyStep::Move(Motion::WordBackward));
    } else if same(w, "next-word-end") {
        v.push(CopyStep::Move(Motion::WordEnd));
    } else if same(w, "next-space") {
        v.push(CopyStep::Move(Motion::SpaceForward));
    } else if same(w, "previous-space") {
        v.push(CopyStep::Move(Motion::SpaceBackward));
    } else if same(w, "next-space-end") {
        v.push(CopyStep::Move(Motion::SpaceEnd));
    } else if same(w, "top-line") {
        v.push(CopyStep::Move(Motion::ScreenTop));
    } else if same(w, "middle-line") {
        v.push(CopyStep::Move(Motion::ScreenMiddle));
    } else if same(w, "bottom-line") {
        v.push(CopyStep::Move(Motion::ScreenBottom));
    } else if same(w, "history-top") {
        v.push(CopyStep::Move(Motion::HistoryTop));
    } else if same(w, "history-bottom") {
        v.push(CopyStep::Move(Motion::HistoryBottom));
    } else if same(w, "halfpage-up") {
        v.push(CopyStep::ScrollUp { lines: half });
    } else if same(w, "halfpage-down") {
        v.push(CopyStep::ScrollDown { lines: half });
    } else if same(w, "page-up") {
        v.push(CopyStep::ScrollUp { lines: 20 });
    } else if same(w, "page-down") {
        v.push(CopyStep::ScrollDown { lines: 20 });
    } else if same(w, "scroll-up") {
        v.push(CopyStep::ScrollUp { lines: 1 });
    } else if same(w, "scroll-down") {
        v.push(CopyStep::ScrollDown { lines: 1 });
    } else if same(w, "search-forward") || same(w, "search-forward-incremental") {
        v.push(CopyStep::Search { forward: true });
    } else if same(w, "search-backward") || same(w, "search-backward-incremental") {
        v.push(CopyStep::Search { forward: false });
    } else if same(w, "search-again") {
        v.push(CopyStep::SearchNext);
    } else if same(w, "search-reverse") {
        v.push(CopyStep::SearchPrevious);
    } else if same(w, "copy-end-of-line") {
        v.push(CopyStep::CopyEndOfLine);
        v.push(CopyStep::Leave { forget_anchor: false });
    } else if same(w, "select-word") {
        v.push(CopyStep::Move(Motion::WordBackward));
        v.push(CopyStep::Anchor { selection: SelectionMode::Char, move_cursor: false });
        v.push(CopyStep::Move(Motion::WordEnd));
    } else if same(w, "other-end") {
        v.push(CopyStep::OtherEnd);
    } else if same(w, "clear-selection") {
        v.push(CopyStep::ClearSelection);
    } else if same(w, "append-selection") {
        v.push(CopyStep::Yank);
        v.push(CopyStep::Hook(CopyHook::Clipboard));
        v.push(CopyStep::AppendBuffers);
    } else if same(w, "append-selection-and-cancel") {
        v.push(CopyStep::Yank);
        v.push(CopyStep::Hook(CopyHook::Clipboard));
        v.push(CopyStep::AppendBuffers);
        v.push(CopyStep::Leave { forget_anchor: false });
        v.push(CopyStep::Hook(CopyHook::Mode));
    } else if same(w, "copy-line") {
        if has_cursor {
            v.push(CopyStep::SelectLine);
            v.push(CopyStep::Yank);
            v.push(CopyStep::Hook(CopyHook::Clipboard));
        }
        v.push(CopyStep::Leave { forget_anchor: false });
        v.push(CopyStep::Hook(CopyHook::Mode));
        assert(v@ =~= line_steps(has_cursor));
    } else if starts_with(w, "goto-line") {
        let rest = skip(w, "goto-line".unicode_len());
        let t = trim(rest.as_str());
        let line: u16 = match parse_number(t.as_str(), 0xFFFF) {
            Some(n) => n as u16,
            None => 0,
        };
        v.push(CopyStep::GotoLine { line });
    } else if same(w, "jump-forward") {
        v.push(CopyStep::FindChar { kind: 0 });
    } else if same(w, "jump-backward") {
        v.push(CopyStep::FindChar { kind: 1 });
    } else if same(w, "jump-to-forward") {
        v.push(CopyStep::FindChar { kind: 2 });
    } else if same(w, "jump-to-backward") {
        v.push(CopyStep::FindChar { kind: 3 });
    } else if same(w, "next-paragraph") {
        v.push(CopyStep::Move(Motion::NextParagraph));
    } else if same(w, "previous-paragraph") {
        v.push(CopyStep::Move(Motion::PreviousParagraph));
    } else if same(w, "next-matching-bracket") {
        v.push(CopyStep::Move(Motion::MatchingBracket));
    } else if same(w, "stop-selection") {
        v.push(CopyStep::StopSelection);
    }
    assert(v@ =~= command_steps(w@, half, has_cursor));
    v
}

/// The steps of a command. Where nothing is being copied, it begins to copy first;
/// a command that is not known does nothing more.
pub fn copy_command(w: &str, in_copy: bool, half: usize, has_cursor: bool) -> (r: Vec<CopyStep>)
    ensures
        r@ == all_steps(w@, in_copy, half, has_cursor),
{
    let mut v: Vec<CopyStep> = Vec::new();
    if !in_copy {
        v.push(CopyStep::Enter);
    }
    let mut more = steps_of(w, half, has_cursor);
    v.append(&mut more);
    assert(v@ =~= all_steps(w@, in_copy, half, has_cursor));
    v
}

/// The state after a step, given the cursor's place, where it is known, and the
/// width of the pane.
pub open spec fn after_step(s: CopyState, step: CopyStep, here: Option<Place>, cols: u16) -> CopyState {
    match step {
        CopyStep::Anchor { selection, move_cursor } => match here {
            Some(p) => CopyState {
                anchor: Some(p),
                anchor_scroll: s.scroll,
                cursor: if move_cursor {
                    Some(p)
                } else {
                    s.cursor
                },
                selection,
                ..s
            },
            None => s,
        },
        CopyStep::SelectLine => match here {
            Some(p) => CopyState {
                anchor: Some(Place { row: p.row, col: 0 }),
                anchor_scroll: s.scroll,
                cursor: Some(
                    Place {
                        row: p.row,
                        col: if cols == 0 {
                            0
                        } else {
                            (cols - 1) as u16
                        },
                    },
                ),
                selection: SelectionMode::Line,
                ..s
            },
            None => s,
        },
        CopyStep::ToggleRect => CopyState {
            selection: if s.selection == SelectionMode::Rect {
                SelectionMode::Char
            } else {
                SelectionMode::Rect
            },
            ..s
        },
        CopyStep::Search { forward } => CopyState { mode: CopyMode::Search { forward }, ..s },
        CopyStep::OtherEnd => if s.anchor is Some && s.cursor is Some {
            CopyState { anchor: s.cursor, anchor_scroll: s.scroll, cursor: s.anchor, ..s }
        } else {
            s
        },
        CopyStep::ClearSelection => CopyState { anchor: None, selection: SelectionMode::Char, ..s },
        CopyStep::StopSelection => CopyState { anchor: None, ..s },
        CopyStep::GotoLine { line } => CopyState {
            cursor: Some(Place { row: line, col: 0 }),
            ..s
        },
        CopyStep::FindChar { kind } => CopyState { find_pending: Some(kind), ..s },
        CopyStep::Leave { forget_anchor } => CopyState {
            mode: CopyMode::Off,
            anchor: if forget_anchor {
                None
            } else {
                s.anchor
            },
            cursor: None,
            scroll: 0,
            ..s
        },
        _ => s,
    }
}

impl CopyState {
    /// Takes a step, given the cursor's place, where it is known, and the width of
    /// the pane. A step that is taken elsewhere leaves the state as it is.
    pub fn take_step(&mut self, step: CopyStep, here: Option<Place>, cols: u16)
        ensures
            *final(self) == after_step(*old(self), step, here, cols),
    {
        match step {
            CopyStep::Anchor { selection, move_cursor } => {
                if let Some(p) = here {
                    self.anchor = Some(p);
                    self.anchor_scroll = self.scroll;
                    if move_cursor {
                        self.cursor = Some(p);
                    }
                    self.selection = selection;
                }
            },
            CopyStep::SelectLine => {
                if let Some(p) = here {
                    self.anchor = Some(Place { row: p.row, col: 0 });
                    self.anchor_scroll = self.scroll;
                    self.cursor = Some(Place { row: p.row, col: cols.saturating_sub(1) });
                    self.selection = SelectionMode::Line;
                }
            },
            CopyStep::ToggleRect => {
                self.selection = if self.selection == SelectionMode::Rect {
                    SelectionMode::Char
                } else {
                    SelectionMode::Rect
                };
            },
            CopyStep::Search { forward } => {
                self.mode = CopyMode::Search { forward };
            },
            CopyStep::OtherEnd => {
                if let (Some(a), Some(c)) = (self.anchor, self.cursor) {
                    self.anchor = Some(c);
                    self.anchor_scroll = self.scroll;
                    self.cursor = Some(a);
                }
            },
            CopyStep::ClearSelection => {
                self.anchor = None;
                self.selection = SelectionMode::Char;
            },
            CopyStep::StopSelection => {
                self.anchor = None;
            },
            CopyStep::GotoLine { line } => {
                self.cursor = Some(Place { row: line, col: 0 });
            },
            CopyStep::FindChar { kind } => {
                self.find_pending = Some(kind);
            },
            CopyStep::Leave { forget_anchor } => {
                self.mode = CopyMode::Off;
                if forget_anchor {
                    self.anchor = None;
                }
                self.cursor = None;
                self.scroll = 0;
            },
            _ => {},
        }
    }
}

/// Going to the other end of a selection twice leaves its ends as they were.
pub proof fn other_end_twice_comes_back(s: CopyState, here: Option<Place>, cols: u16)
    ensures
        ({
            let twice = after_step(
                after_step(s, CopyStep::OtherEnd, here, cols),
                CopyStep::OtherEnd,
                here,
                cols,
            );
            twice.anchor == s.anchor && twice.cursor == s.cursor && twice.mode == s.mode
        }),
{
}

/// The state after several steps, each with the cursor at the same place.
pub open spec fn after_steps(
    s: CopyState,
    steps: Seq<CopyStep>,
    here: Option<Place>,
    cols: u16,
) -> CopyState
    decreases steps.len(),
{
    if steps.len() == 0 {
        s
    } else {
        after_step(after_steps(s, steps.drop_last(), here, cols), steps.last(), here, cols)
    }
}

/// Cancelling ends copying and forgets the selection, whatever was being done.
pub proof fn cancel_forgets_everything(
    s: CopyState,
    in_copy: bool,
    half: usize,
    has_cursor: bool,
    here: Option<Place>,
    cols: u16,
)
    ensures
        ({
            let t = after_steps(s, all_steps("cancel"@, in_copy, half, has_cursor), here, cols);
            t.mode is Off && t.anchor is None && t.cursor is None && t.scroll == 0
        }),
{
    let c = command_steps("cancel"@, half, has_cursor);
    let a = all_steps("cancel"@, in_copy, half, has_cursor);
    reveal_with_fuel(after_steps, 5);
    if in_copy {
        assert(a =~= c);
    } else {
        assert(a.drop_last().drop_last().drop_last() =~= seq![CopyStep::Enter]);
        assert(a.last() == c[2]);
        assert(a.drop_last().last() == c[1]);
        assert(a.drop_last().drop_last().last() == c[0]);
    }
}

/// The cursor is put where text is typed, and a selection begins there.
pub open spec fn anchored(s: CopyState, here: Place) -> CopyState {
    CopyState { anchor: Some(here), anchor_scroll: s.scroll, cursor: Some(here), ..s }
}

impl CopyState {
    /// Begins a selection where text is typed, if that is known, and keeps its
    /// kind.
    pub fn anchor_at(&mut self, here: Option<Place>)
        ensures
            *final(self) == (match here {
                Some(p) => anchored(*old(self), p),
                None => *old(self),
            }),
    {
        if let Some(p) = here {
            self.anchor = Some(p);
            self.anchor_scroll = self.scroll;
            self.cursor = Some(p);
        }
    }
}

} // verus!
