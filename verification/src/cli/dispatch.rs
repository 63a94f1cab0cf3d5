//! Which command a word names.

use vstd::prelude::*;
use crate::cli::forward::{command_named, named, Command};
use crate::text::same;

verus! {

/// A command of the command line.
#[derive(Clone, Copy, PartialEq, Eq, Structural, Debug)]
pub enum Kind {
    /// Print the help.
    Help,
    /// Print the version.
    Version,
    /// Print the commands.
    ListCommands,
    /// Print a window as it is drawn in a preview.
    RenderPreview,
    /// End the servers.
    KillServer,
    /// List the sessions.
    ListSessions,
    /// Attach to a session.
    Attach,
    /// Run a server.
    Server,
    /// Start a session.
    NewSession,
    /// Open a window.
    NewWindow,
    /// Split a pane.
    SplitWindow,
    /// Send keys to a pane.
    SendKeys,
    /// Paste an encoded text.
    SendPaste,
    /// Detach clients.
    DetachClient,
    /// End a session.
    KillSession,
    /// Ask for a session.
    HasSession,
    /// Rename a session.
    RenameSession,
    /// Set a paste buffer.
    SetBuffer,
    /// List the paste buffers.
    ListBuffers,
    /// Show a paste buffer.
    ShowBuffer,
    /// Delete a paste buffer.
    DeleteBuffer,
    /// Display a message.
    DisplayMessage,
    /// Run a shell command.
    RunShell,
    /// Move a pane to another window.
    JoinPane,
    /// Rename a window.
    RenameWindow,
    /// Read a configuration file.
    SourceFile,
    /// Bind or unbind a key: sent whole, with a warning where no session is there.
    Bind,
    /// Set an option.
    SetOption,
    /// Show options: sent whole and the answer printed.
    ShowOptions,
    /// Run a command under a condition.
    IfShell,
    /// Wait on a channel.
    WaitFor,
    /// Select a layout.
    SelectLayout,
    /// Load a paste buffer from a file.
    LoadBuffer,
    /// Save a paste buffer to a file.
    SaveBuffer,
    /// Look for a window.
    FindWindow,
    /// Sent whole.
    Whole,
    /// Sent whole, with quotes where needed.
    Quoted,
    /// Start a server that stands by.
    StartServer,
    /// Nothing is done.
    Nothing,
    /// Passed on with the words that it knows.
    Forward(Command),
    /// A fixed line is sent.
    Fixed,
    /// A fixed line is sent and the answer printed.
    FixedPrinted,
    /// No command: start a session and attach to it.
    Default,
    /// No such command.
    Unknown,
}

/// The fixed line that is sent for a command.
pub open spec fn fixed_line_text(w: Seq<char>) -> Option<Seq<char>> {
    if w == "kill-pane"@ || w == "killp"@ {
        Some("kill-pane\n"@)
    } else if w == "last-window"@ || w == "last"@ {
        Some("last-window\n"@)
    } else if w == "last-pane"@ || w == "lastp"@ {
        Some("last-pane\n"@)
    } else if w == "next-window"@ || w == "next"@ {
        Some("next-window\n"@)
    } else if w == "previous-window"@ || w == "prev"@ {
        Some("previous-window\n"@)
    } else if w == "display-panes"@ || w == "displayp"@ {
        Some("display-panes\n"@)
    } else if w == "zoom-pane"@ || w == "resizep -Z"@ {
        Some("zoom-pane\n"@)
    } else if w == "clock-mode"@ {
        Some("clock-mode\n"@)
    } else if w == "next-layout"@ {
        Some("next-layout\n"@)
    } else if w == "previous-layout"@ {
        Some("previous-layout\n"@)
    } else if w == "choose-tree"@ {
        Some("choose-tree\n"@)
    } else if w == "choose-window"@ {
        Some("choose-window\n"@)
    } else if w == "choose-session"@ {
        Some("choose-session\n"@)
    } else if w == "send-prefix"@ {
        Some("send-prefix\n"@)
    } else if w == "customize-mode"@ {
        Some("customize-mode\n"@)
    } else if w == "respawn-window"@ || w == "respawnw"@ {
        Some("respawn-window\n"@)
    } else if w == "unlink-window"@ || w == "unlinkw"@ {
        Some("unlink-window\n"@)
    } else {
        None
    }
}

/// The fixed line that is sent for a command.
pub fn fixed_line(w: &str) -> (r: Option<&'static str>)
    ensures
        (match r {
            Some(s) => Some(s@),
            None => None,
        }) == fixed_line_text(w@),
{
    if same(w, "kill-pane") || same(w, "killp") {
        Some("kill-pane\n")
    } else if same(w, "last-window") || same(w, "last") {
        Some("last-window\n")
    } else if same(w, "last-pane") || same(w, "lastp") {
        Some("last-pane\n")
    } else if same(w, "next-window") || same(w, "next") {
        Some("next-window\n")
    } else if same(w, "previous-window") || same(w, "prev") {
        Some("previous-window\n")
    } else if same(w, "display-panes") || same(w, "displayp") {
        Some("display-panes\n")
    } else if same(w, "zoom-pane") || same(w, "resizep -Z") {
        Some("zoom-pane\n")
    } else if same(w, "clock-mode") {
        Some("clock-mode\n")
    } else if same(w, "next-layout") {
        Some("next-layout\n")
    } else if same(w, "previous-layout") {
        Some("previous-layout\n")
    } else if same(w, "choose-tree") {
        Some("choose-tree\n")
    } else if same(w, "choose-window") {
        Some("choose-window\n")
    } else if same(w, "choose-session") {
        Some("choose-session\n")
    } else if same(w, "send-prefix") {
        Some("send-prefix\n")
    } else if same(w, "customize-mode") {
        Some("customize-mode\n")
    } else if same(w, "respawn-window") || same(w, "respawnw") {
        Some("respawn-window\n")
    } else if same(w, "unlink-window") || same(w, "unlinkw") {
        Some("unlink-window\n")
    } else {
        None
    }
}

/// The fixed line that is sent for a command whose answer is printed.
pub open spec fn printed_line_text(w: Seq<char>) -> Option<Seq<char>> {
    if w == "list-clients"@ || w == "lsc"@ || w == "choose-client"@ {
        Some("list-clients\n"@)
    } else if w == "choose-buffer"@ || w == "chooseb"@ {
        Some("choose-buffer\n"@)
    } else if w == "server-info"@ || w == "info"@ {
        Some("server-info\n"@)
    } else if w == "show-messages"@ || w == "showmsgs"@ {
        Some("show-messages\n"@)
    } else {
        None
    }
}

/// The fixed line that is sent for a command whose answer is printed.
pub fn printed_line(w: &str) -> (r: Option<&'static str>)
    ensures
        (match r {
            Some(s) => Some(s@),
            None => None,
        }) == printed_line_text(w@),
{
    if same(w, "list-clients") || same(w, "lsc") || same(w, "choose-client") {
        Some("list-clients\n")
    } else if same(w, "choose-buffer") || same(w, "chooseb") {
        Some("choose-buffer\n")
    } else if same(w, "server-info") || same(w, "info") {
        Some("server-info\n")
    } else if same(w, "show-messages") || same(w, "showmsgs") {
        Some("show-messages\n")
    } else {
        None
    }
}

/// The command that a word names.
pub open spec fn kind_named(w: Seq<char>) -> Kind {
    if w == "-h"@ || w == "--help"@ || w == "help"@ {
        Kind::Help
    } else if w == "-V"@ || w == "-v"@ || w == "--version"@ || w == "version"@ {
        Kind::Version
    } else if w == "list-commands"@ || w == "lscm"@ {
        Kind::ListCommands
    } else if w == "_render-preview"@ {
        Kind::RenderPreview
    } else if w == "kill-server"@ {
        Kind::KillServer
    } else if w == "ls"@ || w == "list-sessions"@ {
        Kind::ListSessions
    } else if w == "a"@ || w == "at"@ || w == "attach"@ || w == "attach-session"@ {
        Kind::Attach
    } else if w == "server"@ {
        Kind::Server
    } else if w == "new-session"@ || w == "new"@ {
        Kind::NewSession
    } else if w == "new-window"@ || w == "neww"@ {
        Kind::NewWindow
    } else if w == "split-window"@ || w == "splitw"@ {
        Kind::SplitWindow
    } else if w == "send-keys"@ || w == "send"@ || w == "send-key"@ {
        Kind::SendKeys
    } else if w == "send-paste"@ {
        Kind::SendPaste
    } else if w == "detach-client"@ || w == "detach"@ {
        Kind::DetachClient
    } else if w == "kill-session"@ || w == "kill-ses"@ {
        Kind::KillSession
    } else if w == "has-session"@ || w == "has"@ {
        Kind::HasSession
    } else if w == "rename-session"@ || w == "rename"@ {
        Kind::RenameSession
    } else if w == "set-buffer"@ || w == "setb"@ {
        Kind::SetBuffer
    } else if w == "list-buffers"@ || w == "lsb"@ {
        Kind::ListBuffers
    } else if w == "show-buffer"@ || w == "showb"@ {
        Kind::ShowBuffer
    } else if w == "delete-buffer"@ || w == "deleteb"@ {
        Kind::DeleteBuffer
    } else if w == "display-message"@ || w == "display"@ {
        Kind::DisplayMessage
    } else if w == "run-shell"@ || w == "run"@ {
        Kind::RunShell
    } else if w == "join-pane"@ || w == "joinp"@ || w == "move-pane"@ || w == "movep"@ {
        Kind::JoinPane
    } else if w == "rename-window"@ || w == "renamew"@ {
        Kind::RenameWindow
    } else if w == "source-file"@ || w == "source"@ {
        Kind::SourceFile
    } else if w == "bind-key"@ || w == "bind"@ || w == "unbind-key"@ || w == "unbind"@ {
        Kind::Bind
    } else if w == "set-option"@ || w == "set"@ || w == "set-window-option"@ || w == "setw"@ {
        Kind::SetOption
    } else if w == "show-options"@ || w == "show"@ || w == "show-window-options"@ || w == "showw"@ || w == "show-hooks"@ {
        Kind::ShowOptions
    } else if w == "if-shell"@ || w == "if"@ {
        Kind::IfShell
    } else if w == "wait-for"@ || w == "wait"@ {
        Kind::WaitFor
    } else if w == "select-layout"@ || w == "selectl"@ {
        Kind::SelectLayout
    } else if w == "load-buffer"@ || w == "loadb"@ {
        Kind::LoadBuffer
    } else if w == "save-buffer"@ || w == "saveb"@ {
        Kind::SaveBuffer
    } else if w == "find-window"@ || w == "findw"@ {
        Kind::FindWindow
    } else if w == "set-hook"@ || w == "link-window"@ || w == "linkw"@ {
        Kind::Whole
    } else if w == "display-menu"@ || w == "menu"@ || w == "display-popup"@ || w == "popup"@ || w == "confirm-before"@ || w == "confirm"@ {
        Kind::Quoted
    } else if w == "start-server"@ || w == "start"@ || w == "warmup"@ {
        Kind::StartServer
    } else if w == "suspend-client"@ || w == "suspendc"@ || w == "lock-client"@ || w == "lockc"@ || w == "lock-server"@ || w == "lock"@ || w == "lock-session"@ || w == "locks"@ {
        Kind::Nothing
    } else if named(w) is Some {
        Kind::Forward(named(w)->0)
    } else if fixed_line_text(w) is Some {
        Kind::Fixed
    } else if printed_line_text(w) is Some {
        Kind::FixedPrinted
    } else if w.len() == 0 {
        Kind::Default
    } else {
        Kind::Unknown
    }
}

/// The command that a word names; a word that names none is unknown.
pub fn kind_of(w: &str) -> (r: Kind)
    ensures
        r == kind_named(w@),
{
    if same(w, "-h") || same(w, "--help") || same(w, "help") {
        Kind::Help
    } else if same(w, "-V") || same(w, "-v") || same(w, "--version") || same(w, "version") {
        Kind::Version
    } else if same(w, "list-commands") || same(w, "lscm") {
        Kind::ListCommands
    } else if same(w, "_render-preview") {
        Kind::RenderPreview
    } else if same(w, "kill-server") {
        Kind::KillServer
    } else if same(w, "ls") || same(w, "list-sessions") {
        Kind::ListSessions
    } else if same(w, "a") || same(w, "at") || same(w, "attach") || same(w, "attach-session") {
        Kind::Attach
    } else if same(w, "server") {
        Kind::Server
    } else if same(w, "new-session") || same(w, "new") {
        Kind::NewSession
    } else if same(w, "new-window") || same(w, "neww") {
        Kind::NewWindow
    } else if same(w, "split-window") || same(w, "splitw") {
        Kind::SplitWindow
    } else if same(w, "send-keys") || same(w, "send") || same(w, "send-key") {
        Kind::SendKeys
    } else if same(w, "send-paste") {
        Kind::SendPaste
    } else if same(w, "detach-client") || same(w, "detach") {
        Kind::DetachClient
    } else if same(w, "kill-session") || same(w, "kill-ses") {
        Kind::KillSession
    } else if same(w, "has-session") || same(w, "has") {
        Kind::HasSession
    } else if same(w, "rename-session") || same(w, "rename") {
        Kind::RenameSession
    } else if same(w, "set-buffer") || same(w, "setb") {
        Kind::SetBuffer
    } else if same(w, "list-buffers") || same(w, "lsb") {
        Kind::ListBuffers
    } else if same(w, "show-buffer") || same(w, "showb") {
        Kind::ShowBuffer
    } else if same(w, "delete-buffer") || same(w, "deleteb") {
        Kind::DeleteBuffer
    } else if same(w, "display-message") || same(w, "display") {
        Kind::DisplayMessage
    } else if same(w, "run-shell") || same(w, "run") {
        Kind::RunShell
    } else if same(w, "join-pane") || same(w, "joinp") || same(w, "move-pane") || same(w, "movep") {
        Kind::JoinPane
    } else if same(w, "rename-window") || same(w, "renamew") {
        Kind::RenameWindow
    } else if same(w, "source-file") || same(w, "source") {
        Kind::SourceFile
    } else if same(w, "bind-key") || same(w, "bind") || same(w, "unbind-key") || same(w, "unbind") {
        Kind::Bind
    } else if same(w, "set-option") || same(w, "set") || same(w, "set-window-option") || same(w, "setw") {
        Kind::SetOption
    } else if same(w, "show-options") || same(w, "show") || same(w, "show-window-options") || same(w, "showw") || same(w, "show-hooks") {
        Kind::ShowOptions
    } else if same(w, "if-shell") || same(w, "if") {
        Kind::IfShell
    } else if same(w, "wait-for") || same(w, "wait") {
        Kind::WaitFor
    } else if same(w, "select-layout") || same(w, "selectl") {
        Kind::SelectLayout
    } else if same(w, "load-buffer") || same(w, "loadb") {
        Kind::LoadBuffer
    } else if same(w, "save-buffer") || same(w, "saveb") {
        Kind::SaveBuffer
    } else if same(w, "find-window") || same(w, "findw") {
        Kind::FindWindow
    } else if same(w, "set-hook") || same(w, "link-window") || same(w, "linkw") {
        Kind::Whole
    } else if same(w, "display-menu") || same(w, "menu") || same(w, "display-popup") || same(w, "popup") || same(w, "confirm-before") || same(w, "confirm") {
        Kind::Quoted
    } else if same(w, "start-server") || same(w, "start") || same(w, "warmup") {
        Kind::StartServer
    } else if same(w, "suspend-client") || same(w, "suspendc") || same(w, "lock-client") || same(w, "lockc") || same(w, "lock-server") || same(w, "lock") || same(w, "lock-session") || same(w, "locks") {
        Kind::Nothing
    } else if let Some(c) = command_named(w) {
        Kind::Forward(c)
    } else if fixed_line(w).is_some() {
        Kind::Fixed
    } else if printed_line(w).is_some() {
        Kind::FixedPrinted
    } else if w.is_empty() {
        Kind::Default
    } else {
        Kind::Unknown
    }
}

/// What is said of a word that names no command.
pub fn unknown_command(w: &str) -> (r: String)
    ensures
        r@ == "unknown command: "@ + w@,
{
    let mut s: String = "unknown command: ".to_owned();
    s.append(w);
    s
}

} // verus!
