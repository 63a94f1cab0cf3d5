//! Commands that are passed on to the server: which of their words are kept, and
//! how the line reads that is sent.

use vstd::prelude::*;
use crate::cli::words::{
    contains_flag, dashed, flag_of, has_flag, in_quotes, is_dashed, is_flag_of, push_quoted, push_word,
    token_views, tokenize, tokens, trim_quotes, unquoted, Token, TokenView,
};
use crate::text::{has_prefix, is_signed_number, same, signed_number, skip, starts_with, texts};

verus! {

/// A command that is passed on with the words that it knows.
#[derive(Clone, Copy, PartialEq, Eq, Structural, Debug)]
pub enum Command {
    CapturePane,
    SelectPane,
    SelectWindow,
    ListPanes,
    ListWindows,
    KillWindow,
    SwapPane,
    ResizePane,
    PasteBuffer,
    RespawnPane,
    RotateWindow,
    BreakPane,
    MoveWindow,
    SwapWindow,
    SwitchClient,
    CopyMode,
    SetEnvironment,
    ShowEnvironment,
    ClearHistory,
    PipePane,
    CommandPrompt,
    RefreshClient,
    ResizeWindow,
    ListKeys,
}

/// What happens to a word that is none of a command's flags.
#[derive(Clone, Copy, PartialEq, Eq, Structural, Debug)]
pub enum Others {
    Drop,
    Keep,
    /// Keep it if it does not begin with a dash.
    KeepPlain,
    /// Keep it if it is a number.
    KeepNumber,
}

/// A command's name.
pub open spec fn name_text(c: Command) -> Seq<char> {
    match c {
        Command::CapturePane => "capture-pane"@,
        Command::SelectPane => "select-pane"@,
        Command::SelectWindow => "select-window"@,
        Command::ListPanes => "list-panes"@,
        Command::ListWindows => "list-windows"@,
        Command::KillWindow => "kill-window"@,
        Command::SwapPane => "swap-pane"@,
        Command::ResizePane => "resize-pane"@,
        Command::PasteBuffer => "paste-buffer"@,
        Command::RespawnPane => "respawn-pane"@,
        Command::RotateWindow => "rotate-window"@,
        Command::BreakPane => "break-pane"@,
        Command::MoveWindow => "move-window"@,
        Command::SwapWindow => "swap-window"@,
        Command::SwitchClient => "switch-client"@,
        Command::CopyMode => "copy-mode"@,
        Command::SetEnvironment => "set-environment"@,
        Command::ShowEnvironment => "show-environment"@,
        Command::ClearHistory => "clear-history"@,
        Command::PipePane => "pipe-pane"@,
        Command::CommandPrompt => "command-prompt"@,
        Command::RefreshClient => "refresh-client"@,
        Command::ResizeWindow => "resize-window"@,
        Command::ListKeys => "list-keys"@,
    }
}

/// A command's name.
pub fn name(c: Command) -> (r: &'static str)
    ensures
        r@ == name_text(c),
{
    match c {
        Command::CapturePane => "capture-pane",
        Command::SelectPane => "select-pane",
        Command::SelectWindow => "select-window",
        Command::ListPanes => "list-panes",
        Command::ListWindows => "list-windows",
        Command::KillWindow => "kill-window",
        Command::SwapPane => "swap-pane",
        Command::ResizePane => "resize-pane",
        Command::PasteBuffer => "paste-buffer",
        Command::RespawnPane => "respawn-pane",
        Command::RotateWindow => "rotate-window",
        Command::BreakPane => "break-pane",
        Command::MoveWindow => "move-window",
        Command::SwapWindow => "swap-window",
        Command::SwitchClient => "switch-client",
        Command::CopyMode => "copy-mode",
        Command::SetEnvironment => "set-environment",
        Command::ShowEnvironment => "show-environment",
        Command::ClearHistory => "clear-history",
        Command::PipePane => "pipe-pane",
        Command::CommandPrompt => "command-prompt",
        Command::RefreshClient => "refresh-client",
        Command::ResizeWindow => "resize-window",
        Command::ListKeys => "list-keys",
    }
}

/// The letters of the flags that are kept as they are.
pub open spec fn bare_text(c: Command) -> Seq<char> {
    match c {
        Command::CapturePane => "peJ"@,
        Command::SelectPane => "DULRlZmMed"@,
        Command::SelectWindow => "lnp"@,
        Command::ListPanes => "as"@,
        Command::ListWindows => "aJ"@,
        Command::KillWindow => "a"@,
        Command::SwapPane => "DUd"@,
        Command::ResizePane => "DULRZ"@,
        Command::PasteBuffer => "dp"@,
        Command::RespawnPane => "k"@,
        Command::RotateWindow => "DU"@,
        Command::BreakPane => "d"@,
        Command::MoveWindow => "abrdk"@,
        Command::SwapWindow => "d"@,
        Command::SwitchClient => "lnpr"@,
        Command::CopyMode => "udeHq"@,
        Command::SetEnvironment => "gruh"@,
        Command::ShowEnvironment => "gsh"@,
        Command::ClearHistory => "H"@,
        Command::PipePane => "IOo"@,
        Command::CommandPrompt => "1NW"@,
        Command::RefreshClient => "Sl"@,
        Command::ResizeWindow => "ADU"@,
        _ => ""@,
    }
}

/// The letters of the flags that are kept as they are.
pub fn bare(c: Command) -> (r: &'static str)
    ensures
        r@ == bare_text(c),
{
    match c {
        Command::CapturePane => "peJ",
        Command::SelectPane => "DULRlZmMed",
        Command::SelectWindow => "lnp",
        Command::ListPanes => "as",
        Command::ListWindows => "aJ",
        Command::KillWindow => "a",
        Command::SwapPane => "DUd",
        Command::ResizePane => "DULRZ",
        Command::PasteBuffer => "dp",
        Command::RespawnPane => "k",
        Command::RotateWindow => "DU",
        Command::BreakPane => "d",
        Command::MoveWindow => "abrdk",
        Command::SwapWindow => "d",
        Command::SwitchClient => "lnpr",
        Command::CopyMode => "udeHq",
        Command::SetEnvironment => "gruh",
        Command::ShowEnvironment => "gsh",
        Command::ClearHistory => "H",
        Command::PipePane => "IOo",
        Command::CommandPrompt => "1NW",
        Command::RefreshClient => "Sl",
        Command::ResizeWindow => "ADU",
        _ => "",
    }
}

/// The letters of the flags that are kept with their value.
pub open spec fn valued_text(c: Command) -> Seq<char> {
    match c {
        Command::CapturePane => "tSEb"@,
        Command::SelectPane => "t"@,
        Command::SelectWindow => "t"@,
        Command::ListPanes => "t"@,
        Command::ListWindows => "t"@,
        Command::KillWindow => "t"@,
        Command::SwapPane => "st"@,
        Command::ResizePane => "txy"@,
        Command::PasteBuffer => "tb"@,
        Command::RespawnPane => "ct"@,
        Command::RotateWindow => "t"@,
        Command::BreakPane => "t"@,
        Command::MoveWindow => "st"@,
        Command::SwapWindow => "st"@,
        Command::SwitchClient => "ct"@,
        Command::CopyMode => "t"@,
        Command::SetEnvironment => "t"@,
        Command::ShowEnvironment => "t"@,
        Command::ClearHistory => "t"@,
        Command::PipePane => "t"@,
        Command::CommandPrompt => "IpTt"@,
        Command::RefreshClient => "Ct"@,
        Command::ResizeWindow => "xy"@,
        Command::ListKeys => "T"@,
    }
}

/// The letters of the flags that are kept with their value.
pub fn valued(c: Command) -> (r: &'static str)
    ensures
        r@ == valued_text(c),
{
    match c {
        Command::CapturePane => "tSEb",
        Command::SelectPane => "t",
        Command::SelectWindow => "t",
        Command::ListPanes => "t",
        Command::ListWindows => "t",
        Command::KillWindow => "t",
        Command::SwapPane => "st",
        Command::ResizePane => "txy",
        Command::PasteBuffer => "tb",
        Command::RespawnPane => "ct",
        Command::RotateWindow => "t",
        Command::BreakPane => "t",
        Command::MoveWindow => "st",
        Command::SwapWindow => "st",
        Command::SwitchClient => "ct",
        Command::CopyMode => "t",
        Command::SetEnvironment => "t",
        Command::ShowEnvironment => "t",
        Command::ClearHistory => "t",
        Command::PipePane => "t",
        Command::CommandPrompt => "IpTt",
        Command::RefreshClient => "Ct",
        Command::ResizeWindow => "xy",
        Command::ListKeys => "T",
    }
}

/// The letters of the flags whose value is put between quotes.
pub open spec fn quoted_text(c: Command) -> Seq<char> {
    match c {
        Command::SelectPane => "TP"@,
        _ => ""@,
    }
}

/// The letters of the flags whose value is put between quotes.
pub fn quoted(c: Command) -> (r: &'static str)
    ensures
        r@ == quoted_text(c),
{
    match c {
        Command::SelectPane => "TP",
        _ => "",
    }
}

/// The letters of the flags that are dropped with their value.
pub open spec fn skipped_text(c: Command) -> Seq<char> {
    match c {
        Command::ResizeWindow => "t"@,
        Command::ListKeys => "t"@,
        _ => ""@,
    }
}

/// The letters of the flags that are dropped with their value.
pub fn skipped(c: Command) -> (r: &'static str)
    ensures
        r@ == skipped_text(c),
{
    match c {
        Command::ResizeWindow => "t",
        Command::ListKeys => "t",
        _ => "",
    }
}

/// The letters of all flags that take a value.
pub open spec fn consuming_text(c: Command) -> Seq<char> {
    match c {
        Command::CapturePane => "tSEb"@,
        Command::SelectPane => "tTP"@,
        Command::SelectWindow => "t"@,
        Command::ListPanes => "tF"@,
        Command::ListWindows => "tF"@,
        Command::KillWindow => "t"@,
        Command::SwapPane => "st"@,
        Command::ResizePane => "txy"@,
        Command::PasteBuffer => "tb"@,
        Command::RespawnPane => "ct"@,
        Command::RotateWindow => "t"@,
        Command::BreakPane => "t"@,
        Command::MoveWindow => "st"@,
        Command::SwapWindow => "st"@,
        Command::SwitchClient => "ct"@,
        Command::CopyMode => "t"@,
        Command::SetEnvironment => "t"@,
        Command::ShowEnvironment => "t"@,
        Command::ClearHistory => "t"@,
        Command::PipePane => "t"@,
        Command::CommandPrompt => "IpTt"@,
        Command::RefreshClient => "Ct"@,
        Command::ResizeWindow => "xyt"@,
        Command::ListKeys => "Tt"@,
    }
}

/// The letters of all flags that take a value.
pub fn consuming(c: Command) -> (r: &'static str)
    ensures
        r@ == consuming_text(c),
{
    match c {
        Command::CapturePane => "tSEb",
        Command::SelectPane => "tTP",
        Command::SelectWindow => "t",
        Command::ListPanes => "tF",
        Command::ListWindows => "tF",
        Command::KillWindow => "t",
        Command::SwapPane => "st",
        Command::ResizePane => "txy",
        Command::PasteBuffer => "tb",
        Command::RespawnPane => "ct",
        Command::RotateWindow => "t",
        Command::BreakPane => "t",
        Command::MoveWindow => "st",
        Command::SwapWindow => "st",
        Command::SwitchClient => "ct",
        Command::CopyMode => "t",
        Command::SetEnvironment => "t",
        Command::ShowEnvironment => "t",
        Command::ClearHistory => "t",
        Command::PipePane => "t",
        Command::CommandPrompt => "IpTt",
        Command::RefreshClient => "Ct",
        Command::ResizeWindow => "xyt",
        Command::ListKeys => "Tt",
    }
}

/// Whether a command takes a format, glued to its flag or not.
pub open spec fn takes_format(c: Command) -> bool {
    c is ListPanes || c is ListWindows
}

/// What happens to a word that is none of the command's flags.
pub open spec fn others(c: Command) -> Others {
    match c {
        Command::ResizePane => Others::KeepNumber,
        Command::RespawnPane | Command::SetEnvironment | Command::PipePane | Command::ListKeys => Others::Keep,
        Command::ShowEnvironment => Others::KeepPlain,
        _ => Others::Drop,
    }
}

/// A format on the line: without the quotes that it came in, between new ones.
pub open spec fn format_piece(f: Seq<char>) -> Seq<char> {
    " -F"@ + seq![' '] + in_quotes(unquoted(f))
}

/// What a token adds to the line.
pub open spec fn piece(c: Command, t: TokenView) -> Seq<char> {
    match t.value {
        Some(v) => if is_flag_of(t.word, skipped_text(c)) {
            Seq::empty()
        } else if is_flag_of(t.word, quoted_text(c)) {
            seq![' '] + t.word + seq![' ', '"'] + v + seq!['"']
        } else if takes_format(c) && t.word == "-F"@ {
            format_piece(v)
        } else {
            seq![' '] + t.word + seq![' '] + v
        },
        None => if is_flag_of(t.word, consuming_text(c)) {
            Seq::empty()
        } else if is_flag_of(t.word, bare_text(c)) {
            seq![' '] + t.word
        } else if takes_format(c) && has_prefix(t.word, "-F"@) && t.word.len() > 2 {
            format_piece(t.word.skip(2))
        } else if (match others(c) {
            Others::Keep => true,
            Others::KeepPlain => !dashed(t.word),
            Others::KeepNumber => signed_number(t.word, 0x7FFF_FFFF, 0x8000_0000),
            Others::Drop => false,
        }) {
            seq![' '] + t.word
        } else {
            Seq::empty()
        },
    }
}

/// What tokens add to the line, one after the other.
pub open spec fn pieces(c: Command, t: Seq<TokenView>) -> Seq<char>
    decreases t.len(),
{
    if t.len() == 0 {
        Seq::empty()
    } else {
        pieces(c, t.drop_last()) + piece(c, t.last())
    }
}

/// The line that is sent for a command with its words, the first of which is the
/// command's name.
pub open spec fn forwarded(c: Command, words: Seq<Seq<char>>) -> Seq<char> {
    name_text(c) + pieces(c, tokens(consuming_text(c), words, 1)) + seq!['\n']
}

/// Whether the answer is waited for and printed.
pub open spec fn prints(c: Command, words: Seq<Seq<char>>) -> bool {
    match c {
        Command::ListPanes | Command::ListWindows | Command::ShowEnvironment | Command::ListKeys => true,
        Command::CapturePane => has_flag(tokens(consuming_text(c), words, 1), "-p"@),
        _ => false,
    }
}

fn push_format(line: &mut String, f: &str)
    ensures
        final(line)@ == old(line)@ + format_piece(f@),
{
    line.append(" -F");
    let t = trim_quotes(f);
    push_quoted(line, t.as_str());
    assert(line@ =~= old(line)@ + format_piece(f@));
}

fn push_piece(line: &mut String, c: Command, t: &Token)
    ensures
        final(line)@ == old(line)@ + piece(c, t@),
{
    let w = t.word.as_str();
    let format: bool = matches!(c, Command::ListPanes) || matches!(c, Command::ListWindows);
    match &t.value {
        Some(v) => {
            if flag_of(w, skipped(c)) {
            } else if flag_of(w, quoted(c)) {
                push_word(line, w);
                line.push(' ');
                line.push('"');
                line.append(v.as_str());
                line.push('"');
            } else if format && same(w, "-F") {
                push_format(line, v.as_str());
            } else {
                push_word(line, w);
                push_word(line, v.as_str());
            }
        },
        None => {
            if flag_of(w, consuming(c)) {
            } else if flag_of(w, bare(c)) {
                push_word(line, w);
            } else if format && starts_with(w, "-F") && w.unicode_len() > 2 {
                let rest = skip(w, 2);
                push_format(line, rest.as_str());
            } else {
                let keep: bool = match c {
                    Command::ResizePane => is_signed_number(w, 0x7FFF_FFFF, 0x8000_0000),
                    Command::RespawnPane => true,
                    Command::SetEnvironment => true,
                    Command::PipePane => true,
                    Command::ListKeys => true,
                    Command::ShowEnvironment => !is_dashed(w),
                    _ => false,
                };
                if keep {
                    push_word(line, w);
                }
            }
        },
    }
    assert(line@ =~= old(line)@ + piece(c, t@));
}

/// The line that is sent for a command with its words, and whether the answer is
/// waited for and printed.
pub fn forward(c: Command, words: &Vec<String>) -> (r: (String, bool))
    ensures
        r.0@ == forwarded(c, texts(words@)),
        r.1 == prints(c, texts(words@)),
{
    let t = tokenize(consuming(c), words, 1);
    let ghost v = token_views(t@);
    let mut line: String = name(c).to_owned();
    let mut i: usize = 0;
    assert(line@ =~= name_text(c) + pieces(c, v.take(0)));
    while i < t.len()
        invariant
            i <= t.len(),
            v == token_views(t@),
            line@ == name_text(c) + pieces(c, v.take(i as int)),
        decreases t.len() - i,
    {
        push_piece(&mut line, c, &t[i]);
        proof {
            assert(v.take(i + 1).drop_last() =~= v.take(i as int));
            assert(v.take(i + 1).last() == t@[i as int]@);
            assert(line@ =~= name_text(c) + pieces(c, v.take(i + 1)));
        }
        i += 1;
    }
    assert(v.take(t.len() as int) =~= v);
    line.push('\n');
    let prints: bool = match c {
        Command::ListPanes => true,
        Command::ListWindows => true,
        Command::ShowEnvironment => true,
        Command::ListKeys => true,
        Command::CapturePane => contains_flag(&t, "-p"),
        _ => false,
    };
    (line, prints)
}

/// The command that a word names.
pub open spec fn named(w: Seq<char>) -> Option<Command> {
    if w == "capture-pane"@ || w == "capturep"@ {
        Some(Command::CapturePane)
    } else if w == "select-pane"@ || w == "selectp"@ {
        Some(Command::SelectPane)
    } else if w == "select-window"@ || w == "selectw"@ {
        Some(Command::SelectWindow)
    } else if w == "list-panes"@ || w == "lsp"@ {
        Some(Command::ListPanes)
    } else if w == "list-windows"@ || w == "lsw"@ {
        Some(Command::ListWindows)
    } else if w == "kill-window"@ || w == "killw"@ {
        Some(Command::KillWindow)
    } else if w == "swap-pane"@ || w == "swapp"@ {
        Some(Command::SwapPane)
    } else if w == "resize-pane"@ || w == "resizep"@ {
        Some(Command::ResizePane)
    } else if w == "paste-buffer"@ || w == "pasteb"@ {
        Some(Command::PasteBuffer)
    } else if w == "respawn-pane"@ || w == "respawnp"@ || w == "resp"@ {
        Some(Command::RespawnPane)
    } else if w == "rotate-window"@ || w == "rotatew"@ {
        Some(Command::RotateWindow)
    } else if w == "break-pane"@ || w == "breakp"@ {
        Some(Command::BreakPane)
    } else if w == "move-window"@ || w == "movew"@ {
        Some(Command::MoveWindow)
    } else if w == "swap-window"@ || w == "swapw"@ {
        Some(Command::SwapWindow)
    } else if w == "switch-client"@ || w == "switchc"@ {
        Some(Command::SwitchClient)
    } else if w == "copy-mode"@ {
        Some(Command::CopyMode)
    } else if w == "set-environment"@ || w == "setenv"@ {
        Some(Command::SetEnvironment)
    } else if w == "show-environment"@ || w == "showenv"@ {
        Some(Command::ShowEnvironment)
    } else if w == "clear-history"@ || w == "clearhist"@ {
        Some(Command::ClearHistory)
    } else if w == "pipe-pane"@ || w == "pipep"@ {
        Some(Command::PipePane)
    } else if w == "command-prompt"@ {
        Some(Command::CommandPrompt)
    } else if w == "refresh-client"@ || w == "refresh"@ {
        Some(Command::RefreshClient)
    } else if w == "resize-window"@ || w == "resizew"@ {
        Some(Command::ResizeWindow)
    } else if w == "list-keys"@ || w == "lsk"@ {
        Some(Command::ListKeys)
    } else {
        None
    }
}

/// The command that a word names.
pub fn command_named(w: &str) -> (r: Option<Command>)
    ensures
        r == named(w@),
{
    if same(w, "capture-pane") || same(w, "capturep") {
        Some(Command::CapturePane)
    } else if same(w, "select-pane") || same(w, "selectp") {
        Some(Command::SelectPane)
    } else if same(w, "select-window") || same(w, "selectw") {
        Some(Command::SelectWindow)
    } else if same(w, "list-panes") || same(w, "lsp") {
        Some(Command::ListPanes)
    } else if same(w, "list-windows") || same(w, "lsw") {
        Some(Command::ListWindows)
    } else if same(w, "kill-window") || same(w, "killw") {
        Some(Command::KillWindow)
    } else if same(w, "swap-pane") || same(w, "swapp") {
        Some(Command::SwapPane)
    } else if same(w, "resize-pane") || same(w, "resizep") {
        Some(Command::ResizePane)
    } else if same(w, "paste-buffer") || same(w, "pasteb") {
        Some(Command::PasteBuffer)
    } else if same(w, "respawn-pane") || same(w, "respawnp") || same(w, "resp") {
        Some(Command::RespawnPane)
    } else if same(w, "rotate-window") || same(w, "rotatew") {
        Some(Command::RotateWindow)
    } else if same(w, "break-pane") || same(w, "breakp") {
        Some(Command::BreakPane)
    } else if same(w, "move-window") || same(w, "movew") {
        Some(Command::MoveWindow)
    } else if same(w, "swap-window") || same(w, "swapw") {
        Some(Command::SwapWindow)
    } else if same(w, "switch-client") || same(w, "switchc") {
        Some(Command::SwitchClient)
    } else if same(w, "copy-mode") {
        Some(Command::CopyMode)
    } else if same(w, "set-environment") || same(w, "setenv") {
        Some(Command::SetEnvironment)
    } else if same(w, "show-environment") || same(w, "showenv") {
        Some(Command::ShowEnvironment)
    } else if same(w, "clear-history") || same(w, "clearhist") {
        Some(Command::ClearHistory)
    } else if same(w, "pipe-pane") || same(w, "pipep") {
        Some(Command::PipePane)
    } else if same(w, "command-prompt") {
        Some(Command::CommandPrompt)
    } else if same(w, "refresh-client") || same(w, "refresh") {
        Some(Command::RefreshClient)
    } else if same(w, "resize-window") || same(w, "resizew") {
        Some(Command::ResizeWindow)
    } else if same(w, "list-keys") || same(w, "lsk") {
        Some(Command::ListKeys)
    } else {
        None
    }
}

} // verus!
