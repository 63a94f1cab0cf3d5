//! What holds of the words that name commands.

use vstd::prelude::*;
use crate::cli::dispatch::{fixed_line_text, kind_named, printed_line_text, Kind};
use crate::cli::forward::named;

verus! {

proof fn lemma_words_0()
    ensures
        "--help"@.len() == 6 && "--help"@[0] == '-' && "--help"@[1] == '-' && "--help"@[2] == 'h' && "--help"@[3] == 'e' && "--help"@[4] == 'l' && "--help"@[5] == 'p',
        "--version"@.len() == 9 && "--version"@[0] == '-' && "--version"@[1] == '-' && "--version"@[2] == 'v' && "--version"@[3] == 'e' && "--version"@[4] == 'r' && "--version"@[5] == 's' && "--version"@[6] == 'i' && "--version"@[7] == 'o' && "--version"@[8] == 'n',
        "-V"@.len() == 2 && "-V"@[0] == '-' && "-V"@[1] == 'V',
        "-h"@.len() == 2 && "-h"@[0] == '-' && "-h"@[1] == 'h',
        "-v"@.len() == 2 && "-v"@[0] == '-' && "-v"@[1] == 'v',
        "_render-preview"@.len() == 15 && "_render-preview"@[0] == '_' && "_render-preview"@[1] == 'r' && "_render-preview"@[2] == 'e' && "_render-preview"@[3] == 'n' && "_render-preview"@[4] == 'd' && "_render-preview"@[5] == 'e' && "_render-preview"@[6] == 'r' && "_render-preview"@[7] == '-' && "_render-preview"@[8] == 'p' && "_render-preview"@[9] == 'r' && "_render-preview"@[10] == 'e' && "_render-preview"@[11] == 'v' && "_render-preview"@[12] == 'i' && "_render-preview"@[13] == 'e' && "_render-preview"@[14] == 'w',
        "a"@.len() == 1 && "a"@[0] == 'a',
        "at"@.len() == 2 && "at"@[0] == 'a' && "at"@[1] == 't',
        "attach"@.len() == 6 && "attach"@[0] == 'a' && "attach"@[1] == 't' && "attach"@[2] == 't' && "attach"@[3] == 'a' && "attach"@[4] == 'c' && "attach"@[5] == 'h',
        "attach-session"@.len() == 14 && "attach-session"@[0] == 'a' && "attach-session"@[1] == 't' && "attach-session"@[2] == 't' && "attach-session"@[3] == 'a' && "attach-session"@[4] == 'c' && "attach-session"@[5] == 'h' && "attach-session"@[6] == '-' && "attach-session"@[7] == 's' && "attach-session"@[8] == 'e' && "attach-session"@[9] == 's' && "attach-session"@[10] == 's' && "attach-session"@[11] == 'i' && "attach-session"@[12] == 'o' && "attach-session"@[13] == 'n',
        "bind"@.len() == 4 && "bind"@[0] == 'b' && "bind"@[1] == 'i' && "bind"@[2] == 'n' && "bind"@[3] == 'd',
        "bind-key"@.len() == 8 && "bind-key"@[0] == 'b' && "bind-key"@[1] == 'i' && "bind-key"@[2] == 'n' && "bind-key"@[3] == 'd' && "bind-key"@[4] == '-' && "bind-key"@[5] == 'k' && "bind-key"@[6] == 'e' && "bind-key"@[7] == 'y',
        "break-pane"@.len() == 10 && "break-pane"@[0] == 'b' && "break-pane"@[1] == 'r' && "break-pane"@[2] == 'e' && "break-pane"@[3] == 'a' && "break-pane"@[4] == 'k' && "break-pane"@[5] == '-' && "break-pane"@[6] == 'p' && "break-pane"@[7] == 'a' && "break-pane"@[8] == 'n' && "break-pane"@[9] == 'e',
        "breakp"@.len() == 6 && "breakp"@[0] == 'b' && "breakp"@[1] == 'r' && "breakp"@[2] == 'e' && "breakp"@[3] == 'a' && "breakp"@[4] == 'k' && "breakp"@[5] == 'p',
        "capture-pane"@.len() == 12 && "capture-pane"@[0] == 'c' && "capture-pane"@[1] == 'a' && "capture-pane"@[2] == 'p' && "capture-pane"@[3] == 't' && "capture-pane"@[4] == 'u' && "capture-pane"@[5] == 'r' && "capture-pane"@[6] == 'e' && "capture-pane"@[7] == '-' && "capture-pane"@[8] == 'p' && "capture-pane"@[9] == 'a' && "capture-pane"@[10] == 'n' && "capture-pane"@[11] == 'e',
        "capturep"@.len() == 8 && "capturep"@[0] == 'c' && "capturep"@[1] == 'a' && "capturep"@[2] == 'p' && "capturep"@[3] == 't' && "capturep"@[4] == 'u' && "capturep"@[5] == 'r' && "capturep"@[6] == 'e' && "capturep"@[7] == 'p',
        "choose-buffer"@.len() == 13 && "choose-buffer"@[0] == 'c' && "choose-buffer"@[1] == 'h' && "choose-buffer"@[2] == 'o' && "choose-buffer"@[3] == 'o' && "choose-buffer"@[4] == 's' && "choose-buffer"@[5] == 'e' && "choose-buffer"@[6] == '-' && "choose-buffer"@[7] == 'b' && "choose-buffer"@[8] == 'u' && "choose-buffer"@[9] == 'f' && "choose-buffer"@[10] == 'f' && "choose-buffer"@[11] == 'e' && "choose-buffer"@[12] == 'r',
        "choose-client"@.len() == 13 && "choose-client"@[0] == 'c' && "choose-client"@[1] == 'h' && "choose-client"@[2] == 'o' && "choose-client"@[3] == 'o' && "choose-client"@[4] == 's' && "choose-client"@[5] == 'e' && "choose-client"@[6] == '-' && "choose-client"@[7] == 'c' && "choose-client"@[8] == 'l' && "choose-client"@[9] == 'i' && "choose-client"@[10] == 'e' && "choose-client"@[11] == 'n' && "choose-client"@[12] == 't',
        "choose-session"@.len() == 14 && "choose-session"@[0] == 'c' && "choose-session"@[1] == 'h' && "choose-session"@[2] == 'o' && "choose-session"@[3] == 'o' && "choose-session"@[4] == 's' && "choose-session"@[5] == 'e' && "choose-session"@[6] == '-' && "choose-session"@[7] == 's' && "choose-session"@[8] == 'e' && "choose-session"@[9] == 's' && "choose-session"@[10] == 's' && "choose-session"@[11] == 'i' && "choose-session"@[12] == 'o' && "choose-session"@[13] == 'n',
        "choose-tree"@.len() == 11 && "choose-tree"@[0] == 'c' && "choose-tree"@[1] == 'h' && "choose-tree"@[2] == 'o' && "choose-tree"@[3] == 'o' && "choose-tree"@[4] == 's' && "choose-tree"@[5] == 'e' && "choose-tree"@[6] == '-' && "choose-tree"@[7] == 't' && "choose-tree"@[8] == 'r' && "choose-tree"@[9] == 'e' && "choose-tree"@[10] == 'e',
        "choose-window"@.len() == 13 && "choose-window"@[0] == 'c' && "choose-window"@[1] == 'h' && "choose-window"@[2] == 'o' && "choose-window"@[3] == 'o' && "choose-window"@[4] == 's' && "choose-window"@[5] == 'e' && "choose-window"@[6] == '-' && "choose-window"@[7] == 'w' && "choose-window"@[8] == 'i' && "choose-window"@[9] == 'n' && "choose-window"@[10] == 'd' && "choose-window"@[11] == 'o' && "choose-window"@[12] == 'w',
        "chooseb"@.len() == 7 && "chooseb"@[0] == 'c' && "chooseb"@[1] == 'h' && "chooseb"@[2] == 'o' && "chooseb"@[3] == 'o' && "chooseb"@[4] == 's' && "chooseb"@[5] == 'e' && "chooseb"@[6] == 'b',
        "clear-history"@.len() == 13 && "clear-history"@[0] == 'c' && "clear-history"@[1] == 'l' && "clear-history"@[2] == 'e' && "clear-history"@[3] == 'a' && "clear-history"@[4] == 'r' && "clear-history"@[5] == '-' && "clear-history"@[6] == 'h' && "clear-history"@[7] == 'i' && "clear-history"@[8] == 's' && "clear-history"@[9] == 't' && "clear-history"@[10] == 'o' && "clear-history"@[11] == 'r' && "clear-history"@[12] == 'y',
        "clearhist"@.len() == 9 && "clearhist"@[0] == 'c' && "clearhist"@[1] == 'l' && "clearhist"@[2] == 'e' && "clearhist"@[3] == 'a' && "clearhist"@[4] == 'r' && "clearhist"@[5] == 'h' && "clearhist"@[6] == 'i' && "clearhist"@[7] == 's' && "clearhist"@[8] == 't',
        "clock-mode"@.len() == 10 && "clock-mode"@[0] == 'c' && "clock-mode"@[1] == 'l' && "clock-mode"@[2] == 'o' && "clock-mode"@[3] == 'c' && "clock-mode"@[4] == 'k' && "clock-mode"@[5] == '-' && "clock-mode"@[6] == 'm' && "clock-mode"@[7] == 'o' && "clock-mode"@[8] == 'd' && "clock-mode"@[9] == 'e',
        "command-prompt"@.len() == 14 && "command-prompt"@[0] == 'c' && "command-prompt"@[1] == 'o' && "command-prompt"@[2] == 'm' && "command-prompt"@[3] == 'm' && "command-prompt"@[4] == 'a' && "command-prompt"@[5] == 'n' && "command-prompt"@[6] == 'd' && "command-prompt"@[7] == '-' && "command-prompt"@[8] == 'p' && "command-prompt"@[9] == 'r' && "command-prompt"@[10] == 'o' && "command-prompt"@[11] == 'm' && "command-prompt"@[12] == 'p' && "command-prompt"@[13] == 't',
        "confirm"@.len() == 7 && "confirm"@[0] == 'c' && "confirm"@[1] == 'o' && "confirm"@[2] == 'n' && "confirm"@[3] == 'f' && "confirm"@[4] == 'i' && "confirm"@[5] == 'r' && "confirm"@[6] == 'm',
        "confirm-before"@.len() == 14 && "confirm-before"@[0] == 'c' && "confirm-before"@[1] == 'o' && "confirm-before"@[2] == 'n' && "confirm-before"@[3] == 'f' && "confirm-before"@[4] == 'i' && "confirm-before"@[5] == 'r' && "confirm-before"@[6] == 'm' && "confirm-before"@[7] == '-' && "confirm-before"@[8] == 'b' && "confirm-before"@[9] == 'e' && "confirm-before"@[10] == 'f' && "confirm-before"@[11] == 'o' && "confirm-before"@[12] == 'r' && "confirm-before"@[13] == 'e',
        "copy-mode"@.len() == 9 && "copy-mode"@[0] == 'c' && "copy-mode"@[1] == 'o' && "copy-mode"@[2] == 'p' && "copy-mode"@[3] == 'y' && "copy-mode"@[4] == '-' && "copy-mode"@[5] == 'm' && "copy-mode"@[6] == 'o' && "copy-mode"@[7] == 'd' && "copy-mode"@[8] == 'e',
        "customize-mode"@.len() == 14 && "customize-mode"@[0] == 'c' && "customize-mode"@[1] == 'u' && "customize-mode"@[2] == 's' && "customize-mode"@[3] == 't' && "customize-mode"@[4] == 'o' && "customize-mode"@[5] == 'm' && "customize-mode"@[6] == 'i' && "customize-mode"@[7] == 'z' && "customize-mode"@[8] == 'e' && "customize-mode"@[9] == '-' && "customize-mode"@[10] == 'm' && "customize-mode"@[11] == 'o' && "customize-mode"@[12] == 'd' && "customize-mode"@[13] == 'e',
        "delete-buffer"@.len() == 13 && "delete-buffer"@[0] == 'd' && "delete-buffer"@[1] == 'e' && "delete-buffer"@[2] == 'l' && "delete-buffer"@[3] == 'e' && "delete-buffer"@[4] == 't' && "delete-buffer"@[5] == 'e' && "delete-buffer"@[6] == '-' && "delete-buffer"@[7] == 'b' && "delete-buffer"@[8] == 'u' && "delete-buffer"@[9] == 'f' && "delete-buffer"@[10] == 'f' && "delete-buffer"@[11] == 'e' && "delete-buffer"@[12] == 'r',
        "deleteb"@.len() == 7 && "deleteb"@[0] == 'd' && "deleteb"@[1] == 'e' && "deleteb"@[2] == 'l' && "deleteb"@[3] == 'e' && "deleteb"@[4] == 't' && "deleteb"@[5] == 'e' && "deleteb"@[6] == 'b',
        "detach"@.len() == 6 && "detach"@[0] == 'd' && "detach"@[1] == 'e' && "detach"@[2] == 't' && "detach"@[3] == 'a' && "detach"@[4] == 'c' && "detach"@[5] == 'h',
        "detach-client"@.len() == 13 && "detach-client"@[0] == 'd' && "detach-client"@[1] == 'e' && "detach-client"@[2] == 't' && "detach-client"@[3] == 'a' && "detach-client"@[4] == 'c' && "detach-client"@[5] == 'h' && "detach-client"@[6] == '-' && "detach-client"@[7] == 'c' && "detach-client"@[8] == 'l' && "detach-client"@[9] == 'i' && "detach-client"@[10] == 'e' && "detach-client"@[11] == 'n' && "detach-client"@[12] == 't',
        "display"@.len() == 7 && "display"@[0] == 'd' && "display"@[1] == 'i' && "display"@[2] == 's' && "display"@[3] == 'p' && "display"@[4] == 'l' && "display"@[5] == 'a' && "display"@[6] == 'y',
        "display-menu"@.len() == 12 && "display-menu"@[0] == 'd' && "display-menu"@[1] == 'i' && "display-menu"@[2] == 's' && "display-menu"@[3] == 'p' && "display-menu"@[4] == 'l' && "display-menu"@[5] == 'a' && "display-menu"@[6] == 'y' && "display-menu"@[7] == '-' && "display-menu"@[8] == 'm' && "display-menu"@[9] == 'e' && "display-menu"@[10] == 'n' && "display-menu"@[11] == 'u',
        "display-message"@.len() == 15 && "display-message"@[0] == 'd' && "display-message"@[1] == 'i' && "display-message"@[2] == 's' && "display-message"@[3] == 'p' && "display-message"@[4] == 'l' && "display-message"@[5] == 'a' && "display-message"@[6] == 'y' && "display-message"@[7] == '-' && "display-message"@[8] == 'm' && "display-message"@[9] == 'e' && "display-message"@[10] == 's' && "display-message"@[11] == 's' && "display-message"@[12] == 'a' && "display-message"@[13] == 'g' && "display-message"@[14] == 'e',
        "display-panes"@.len() == 13 && "display-panes"@[0] == 'd' && "display-panes"@[1] == 'i' && "display-panes"@[2] == 's' && "display-panes"@[3] == 'p' && "display-panes"@[4] == 'l' && "display-panes"@[5] == 'a' && "display-panes"@[6] == 'y' && "display-panes"@[7] == '-' && "display-panes"@[8] == 'p' && "display-panes"@[9] == 'a' && "display-panes"@[10] == 'n' && "display-panes"@[11] == 'e' && "display-panes"@[12] == 's',
        "display-popup"@.len() == 13 && "display-popup"@[0] == 'd' && "display-popup"@[1] == 'i' && "display-popup"@[2] == 's' && "display-popup"@[3] == 'p' && "display-popup"@[4] == 'l' && "display-popup"@[5] == 'a' && "display-popup"@[6] == 'y' && "display-popup"@[7] == '-' && "display-popup"@[8] == 'p' && "display-popup"@[9] == 'o' && "display-popup"@[10] == 'p' && "display-popup"@[11] == 'u' && "display-popup"@[12] == 'p',
        "displayp"@.len() == 8 && "displayp"@[0] == 'd' && "displayp"@[1] == 'i' && "displayp"@[2] == 's' && "displayp"@[3] == 'p' && "displayp"@[4] == 'l' && "displayp"@[5] == 'a' && "displayp"@[6] == 'y' && "displayp"@[7] == 'p',
{
    reveal_strlit("--help");
    reveal_strlit("--version");
    reveal_strlit("-V");
    reveal_strlit("-h");
    reveal_strlit("-v");
    reveal_strlit("_render-preview");
    reveal_strlit("a");
    reveal_strlit("at");
    reveal_strlit("attach");
    reveal_strlit("attach-session");
    reveal_strlit("bind");
    reveal_strlit("bind-key");
    reveal_strlit("break-pane");
    reveal_strlit("breakp");
    reveal_strlit("capture-pane");
    reveal_strlit("capturep");
    reveal_strlit("choose-buffer");
    reveal_strlit("choose-client");
    reveal_strlit("choose-session");
    reveal_strlit("choose-tree");
    reveal_strlit("choose-window");
    reveal_strlit("chooseb");
    reveal_strlit("clear-history");
    reveal_strlit("clearhist");
    reveal_strlit("clock-mode");
    reveal_strlit("command-prompt");
    reveal_strlit("confirm");
    reveal_strlit("confirm-before");
    reveal_strlit("copy-mode");
    reveal_strlit("customize-mode");
    reveal_strlit("delete-buffer");
    reveal_strlit("deleteb");
    reveal_strlit("detach");
    reveal_strlit("detach-client");
    reveal_strlit("display");
    reveal_strlit("display-menu");
    reveal_strlit("display-message");
    reveal_strlit("display-panes");
    reveal_strlit("display-popup");
    reveal_strlit("displayp");
}

proof fn lemma_words_1()
    ensures
        "find-window"@.len() == 11 && "find-window"@[0] == 'f' && "find-window"@[1] == 'i' && "find-window"@[2] == 'n' && "find-window"@[3] == 'd' && "find-window"@[4] == '-' && "find-window"@[5] == 'w' && "find-window"@[6] == 'i' && "find-window"@[7] == 'n' && "find-window"@[8] == 'd' && "find-window"@[9] == 'o' && "find-window"@[10] == 'w',
        "findw"@.len() == 5 && "findw"@[0] == 'f' && "findw"@[1] == 'i' && "findw"@[2] == 'n' && "findw"@[3] == 'd' && "findw"@[4] == 'w',
        "has"@.len() == 3 && "has"@[0] == 'h' && "has"@[1] == 'a' && "has"@[2] == 's',
        "has-session"@.len() == 11 && "has-session"@[0] == 'h' && "has-session"@[1] == 'a' && "has-session"@[2] == 's' && "has-session"@[3] == '-' && "has-session"@[4] == 's' && "has-session"@[5] == 'e' && "has-session"@[6] == 's' && "has-session"@[7] == 's' && "has-session"@[8] == 'i' && "has-session"@[9] == 'o' && "has-session"@[10] == 'n',
        "help"@.len() == 4 && "help"@[0] == 'h' && "help"@[1] == 'e' && "help"@[2] == 'l' && "help"@[3] == 'p',
        "if"@.len() == 2 && "if"@[0] == 'i' && "if"@[1] == 'f',
        "if-shell"@.len() == 8 && "if-shell"@[0] == 'i' && "if-shell"@[1] == 'f' && "if-shell"@[2] == '-' && "if-shell"@[3] == 's' && "if-shell"@[4] == 'h' && "if-shell"@[5] == 'e' && "if-shell"@[6] == 'l' && "if-shell"@[7] == 'l',
        "info"@.len() == 4 && "info"@[0] == 'i' && "info"@[1] == 'n' && "info"@[2] == 'f' && "info"@[3] == 'o',
        "join-pane"@.len() == 9 && "join-pane"@[0] == 'j' && "join-pane"@[1] == 'o' && "join-pane"@[2] == 'i' && "join-pane"@[3] == 'n' && "join-pane"@[4] == '-' && "join-pane"@[5] == 'p' && "join-pane"@[6] == 'a' && "join-pane"@[7] == 'n' && "join-pane"@[8] == 'e',
        "joinp"@.len() == 5 && "joinp"@[0] == 'j' && "joinp"@[1] == 'o' && "joinp"@[2] == 'i' && "joinp"@[3] == 'n' && "joinp"@[4] == 'p',
        "kill-pane"@.len() == 9 && "kill-pane"@[0] == 'k' && "kill-pane"@[1] == 'i' && "kill-pane"@[2] == 'l' && "kill-pane"@[3] == 'l' && "kill-pane"@[4] == '-' && "kill-pane"@[5] == 'p' && "kill-pane"@[6] == 'a' && "kill-pane"@[7] == 'n' && "kill-pane"@[8] == 'e',
        "kill-server"@.len() == 11 && "kill-server"@[0] == 'k' && "kill-server"@[1] == 'i' && "kill-server"@[2] == 'l' && "kill-server"@[3] == 'l' && "kill-server"@[4] == '-' && "kill-server"@[5] == 's' && "kill-server"@[6] == 'e' && "kill-server"@[7] == 'r' && "kill-server"@[8] == 'v' && "kill-server"@[9] == 'e' && "kill-server"@[10] == 'r',
        "kill-ses"@.len() == 8 && "kill-ses"@[0] == 'k' && "kill-ses"@[1] == 'i' && "kill-ses"@[2] == 'l' && "kill-ses"@[3] == 'l' && "kill-ses"@[4] == '-' && "kill-ses"@[5] == 's' && "kill-ses"@[6] == 'e' && "kill-ses"@[7] == 's',
        "kill-session"@.len() == 12 && "kill-session"@[0] == 'k' && "kill-session"@[1] == 'i' && "kill-session"@[2] == 'l' && "kill-session"@[3] == 'l' && "kill-session"@[4] == '-' && "kill-session"@[5] == 's' && "kill-session"@[6] == 'e' && "kill-session"@[7] == 's' && "kill-session"@[8] == 's' && "kill-session"@[9] == 'i' && "kill-session"@[10] == 'o' && "kill-session"@[11] == 'n',
        "kill-window"@.len() == 11 && "kill-window"@[0] == 'k' && "kill-window"@[1] == 'i' && "kill-window"@[2] == 'l' && "kill-window"@[3] == 'l' && "kill-window"@[4] == '-' && "kill-window"@[5] == 'w' && "kill-window"@[6] == 'i' && "kill-window"@[7] == 'n' && "kill-window"@[8] == 'd' && "kill-window"@[9] == 'o' && "kill-window"@[10] == 'w',
        "killp"@.len() == 5 && "killp"@[0] == 'k' && "killp"@[1] == 'i' && "killp"@[2] == 'l' && "killp"@[3] == 'l' && "killp"@[4] == 'p',
        "killw"@.len() == 5 && "killw"@[0] == 'k' && "killw"@[1] == 'i' && "killw"@[2] == 'l' && "killw"@[3] == 'l' && "killw"@[4] == 'w',
        "last"@.len() == 4 && "last"@[0] == 'l' && "last"@[1] == 'a' && "last"@[2] == 's' && "last"@[3] == 't',
        "last-pane"@.len() == 9 && "last-pane"@[0] == 'l' && "last-pane"@[1] == 'a' && "last-pane"@[2] == 's' && "last-pane"@[3] == 't' && "last-pane"@[4] == '-' && "last-pane"@[5] == 'p' && "last-pane"@[6] == 'a' && "last-pane"@[7] == 'n' && "last-pane"@[8] == 'e',
        "last-window"@.len() == 11 && "last-window"@[0] == 'l' && "last-window"@[1] == 'a' && "last-window"@[2] == 's' && "last-window"@[3] == 't' && "last-window"@[4] == '-' && "last-window"@[5] == 'w' && "last-window"@[6] == 'i' && "last-window"@[7] == 'n' && "last-window"@[8] == 'd' && "last-window"@[9] == 'o' && "last-window"@[10] == 'w',
        "lastp"@.len() == 5 && "lastp"@[0] == 'l' && "lastp"@[1] == 'a' && "lastp"@[2] == 's' && "lastp"@[3] == 't' && "lastp"@[4] == 'p',
        "link-window"@.len() == 11 && "link-window"@[0] == 'l' && "link-window"@[1] == 'i' && "link-window"@[2] == 'n' && "link-window"@[3] == 'k' && "link-window"@[4] == '-' && "link-window"@[5] == 'w' && "link-window"@[6] == 'i' && "link-window"@[7] == 'n' && "link-window"@[8] == 'd' && "link-window"@[9] == 'o' && "link-window"@[10] == 'w',
        "linkw"@.len() == 5 && "linkw"@[0] == 'l' && "linkw"@[1] == 'i' && "linkw"@[2] == 'n' && "linkw"@[3] == 'k' && "linkw"@[4] == 'w',
        "list-buffers"@.len() == 12 && "list-buffers"@[0] == 'l' && "list-buffers"@[1] == 'i' && "list-buffers"@[2] == 's' && "list-buffers"@[3] == 't' && "list-buffers"@[4] == '-' && "list-buffers"@[5] == 'b' && "list-buffers"@[6] == 'u' && "list-buffers"@[7] == 'f' && "list-buffers"@[8] == 'f' && "list-buffers"@[9] == 'e' && "list-buffers"@[10] == 'r' && "list-buffers"@[11] == 's',
        "list-clients"@.len() == 12 && "list-clients"@[0] == 'l' && "list-clients"@[1] == 'i' && "list-clients"@[2] == 's' && "list-clients"@[3] == 't' && "list-clients"@[4] == '-' && "list-clients"@[5] == 'c' && "list-clients"@[6] == 'l' && "list-clients"@[7] == 'i' && "list-clients"@[8] == 'e' && "list-clients"@[9] == 'n' && "list-clients"@[10] == 't' && "list-clients"@[11] == 's',
        "list-commands"@.len() == 13 && "list-commands"@[0] == 'l' && "list-commands"@[1] == 'i' && "list-commands"@[2] == 's' && "list-commands"@[3] == 't' && "list-commands"@[4] == '-' && "list-commands"@[5] == 'c' && "list-commands"@[6] == 'o' && "list-commands"@[7] == 'm' && "list-commands"@[8] == 'm' && "list-commands"@[9] == 'a' && "list-commands"@[10] == 'n' && "list-commands"@[11] == 'd' && "list-commands"@[12] == 's',
        "list-keys"@.len() == 9 && "list-keys"@[0] == 'l' && "list-keys"@[1] == 'i' && "list-keys"@[2] == 's' && "list-keys"@[3] == 't' && "list-keys"@[4] == '-' && "list-keys"@[5] == 'k' && "list-keys"@[6] == 'e' && "list-keys"@[7] == 'y' && "list-keys"@[8] == 's',
        "list-panes"@.len() == 10 && "list-panes"@[0] == 'l' && "list-panes"@[1] == 'i' && "list-panes"@[2] == 's' && "list-panes"@[3] == 't' && "list-panes"@[4] == '-' && "list-panes"@[5] == 'p' && "list-panes"@[6] == 'a' && "list-panes"@[7] == 'n' && "list-panes"@[8] == 'e' && "list-panes"@[9] == 's',
        "list-sessions"@.len() == 13 && "list-sessions"@[0] == 'l' && "list-sessions"@[1] == 'i' && "list-sessions"@[2] == 's' && "list-sessions"@[3] == 't' && "list-sessions"@[4] == '-' && "list-sessions"@[5] == 's' && "list-sessions"@[6] == 'e' && "list-sessions"@[7] == 's' && "list-sessions"@[8] == 's' && "list-sessions"@[9] == 'i' && "list-sessions"@[10] == 'o' && "list-sessions"@[11] == 'n' && "list-sessions"@[12] == 's',
        "list-windows"@.len() == 12 && "list-windows"@[0] == 'l' && "list-windows"@[1] == 'i' && "list-windows"@[2] == 's' && "list-windows"@[3] == 't' && "list-windows"@[4] == '-' && "list-windows"@[5] == 'w' && "list-windows"@[6] == 'i' && "list-windows"@[7] == 'n' && "list-windows"@[8] == 'd' && "list-windows"@[9] == 'o' && "list-windows"@[10] == 'w' && "list-windows"@[11] == 's',
        "load-buffer"@.len() == 11 && "load-buffer"@[0] == 'l' && "load-buffer"@[1] == 'o' && "load-buffer"@[2] == 'a' && "load-buffer"@[3] == 'd' && "load-buffer"@[4] == '-' && "load-buffer"@[5] == 'b' && "load-buffer"@[6] == 'u' && "load-buffer"@[7] == 'f' && "load-buffer"@[8] == 'f' && "load-buffer"@[9] == 'e' && "load-buffer"@[10] == 'r',
        "loadb"@.len() == 5 && "loadb"@[0] == 'l' && "loadb"@[1] == 'o' && "loadb"@[2] == 'a' && "loadb"@[3] == 'd' && "loadb"@[4] == 'b',
        "lock"@.len() == 4 && "lock"@[0] == 'l' && "lock"@[1] == 'o' && "lock"@[2] == 'c' && "lock"@[3] == 'k',
        "lock-client"@.len() == 11 && "lock-client"@[0] == 'l' && "lock-client"@[1] == 'o' && "lock-client"@[2] == 'c' && "lock-client"@[3] == 'k' && "lock-client"@[4] == '-' && "lock-client"@[5] == 'c' && "lock-client"@[6] == 'l' && "lock-client"@[7] == 'i' && "lock-client"@[8] == 'e' && "lock-client"@[9] == 'n' && "lock-client"@[10] == 't',
        "lock-server"@.len() == 11 && "lock-server"@[0] == 'l' && "lock-server"@[1] == 'o' && "lock-server"@[2] == 'c' && "lock-server"@[3] == 'k' && "lock-server"@[4] == '-' && "lock-server"@[5] == 's' && "lock-server"@[6] == 'e' && "lock-server"@[7] == 'r' && "lock-server"@[8] == 'v' && "lock-server"@[9] == 'e' && "lock-server"@[10] == 'r',
        "lock-session"@.len() == 12 && "lock-session"@[0] == 'l' && "lock-session"@[1] == 'o' && "lock-session"@[2] == 'c' && "lock-session"@[3] == 'k' && "lock-session"@[4] == '-' && "lock-session"@[5] == 's' && "lock-session"@[6] == 'e' && "lock-session"@[7] == 's' && "lock-session"@[8] == 's' && "lock-session"@[9] == 'i' && "lock-session"@[10] == 'o' && "lock-session"@[11] == 'n',
        "lockc"@.len() == 5 && "lockc"@[0] == 'l' && "lockc"@[1] == 'o' && "lockc"@[2] == 'c' && "lockc"@[3] == 'k' && "lockc"@[4] == 'c',
        "locks"@.len() == 5 && "locks"@[0] == 'l' && "locks"@[1] == 'o' && "locks"@[2] == 'c' && "locks"@[3] == 'k' && "locks"@[4] == 's',
        "ls"@.len() == 2 && "ls"@[0] == 'l' && "ls"@[1] == 's',
        "lsb"@.len() == 3 && "lsb"@[0] == 'l' && "lsb"@[1] == 's' && "lsb"@[2] == 'b',
{
    reveal_strlit("find-window");
    reveal_strlit("findw");
    reveal_strlit("has");
    reveal_strlit("has-session");
    reveal_strlit("help");
    reveal_strlit("if");
    reveal_strlit("if-shell");
    reveal_strlit("info");
    reveal_strlit("join-pane");
    reveal_strlit("joinp");
    reveal_strlit("kill-pane");
    reveal_strlit("kill-server");
    reveal_strlit("kill-ses");
    reveal_strlit("kill-session");
    reveal_strlit("kill-window");
    reveal_strlit("killp");
    reveal_strlit("killw");
    reveal_strlit("last");
    reveal_strlit("last-pane");
    reveal_strlit("last-window");
    reveal_strlit("lastp");
    reveal_strlit("link-window");
    reveal_strlit("linkw");
    reveal_strlit("list-buffers");
    reveal_strlit("list-clients");
    reveal_strlit("list-commands");
    reveal_strlit("list-keys");
    reveal_strlit("list-panes");
    reveal_strlit("list-sessions");
    reveal_strlit("list-windows");
    reveal_strlit("load-buffer");
    reveal_strlit("loadb");
    reveal_strlit("lock");
    reveal_strlit("lock-client");
    reveal_strlit("lock-server");
    reveal_strlit("lock-session");
    reveal_strlit("lockc");
    reveal_strlit("locks");
    reveal_strlit("ls");
    reveal_strlit("lsb");
}

proof fn lemma_words_2()
    ensures
        "lsc"@.len() == 3 && "lsc"@[0] == 'l' && "lsc"@[1] == 's' && "lsc"@[2] == 'c',
        "lscm"@.len() == 4 && "lscm"@[0] == 'l' && "lscm"@[1] == 's' && "lscm"@[2] == 'c' && "lscm"@[3] == 'm',
        "lsk"@.len() == 3 && "lsk"@[0] == 'l' && "lsk"@[1] == 's' && "lsk"@[2] == 'k',
        "lsp"@.len() == 3 && "lsp"@[0] == 'l' && "lsp"@[1] == 's' && "lsp"@[2] == 'p',
        "lsw"@.len() == 3 && "lsw"@[0] == 'l' && "lsw"@[1] == 's' && "lsw"@[2] == 'w',
        "menu"@.len() == 4 && "menu"@[0] == 'm' && "menu"@[1] == 'e' && "menu"@[2] == 'n' && "menu"@[3] == 'u',
        "move-pane"@.len() == 9 && "move-pane"@[0] == 'm' && "move-pane"@[1] == 'o' && "move-pane"@[2] == 'v' && "move-pane"@[3] == 'e' && "move-pane"@[4] == '-' && "move-pane"@[5] == 'p' && "move-pane"@[6] == 'a' && "move-pane"@[7] == 'n' && "move-pane"@[8] == 'e',
        "move-window"@.len() == 11 && "move-window"@[0] == 'm' && "move-window"@[1] == 'o' && "move-window"@[2] == 'v' && "move-window"@[3] == 'e' && "move-window"@[4] == '-' && "move-window"@[5] == 'w' && "move-window"@[6] == 'i' && "move-window"@[7] == 'n' && "move-window"@[8] == 'd' && "move-window"@[9] == 'o' && "move-window"@[10] == 'w',
        "movep"@.len() == 5 && "movep"@[0] == 'm' && "movep"@[1] == 'o' && "movep"@[2] == 'v' && "movep"@[3] == 'e' && "movep"@[4] == 'p',
        "movew"@.len() == 5 && "movew"@[0] == 'm' && "movew"@[1] == 'o' && "movew"@[2] == 'v' && "movew"@[3] == 'e' && "movew"@[4] == 'w',
        "new"@.len() == 3 && "new"@[0] == 'n' && "new"@[1] == 'e' && "new"@[2] == 'w',
        "new-session"@.len() == 11 && "new-session"@[0] == 'n' && "new-session"@[1] == 'e' && "new-session"@[2] == 'w' && "new-session"@[3] == '-' && "new-session"@[4] == 's' && "new-session"@[5] == 'e' && "new-session"@[6] == 's' && "new-session"@[7] == 's' && "new-session"@[8] == 'i' && "new-session"@[9] == 'o' && "new-session"@[10] == 'n',
        "new-window"@.len() == 10 && "new-window"@[0] == 'n' && "new-window"@[1] == 'e' && "new-window"@[2] == 'w' && "new-window"@[3] == '-' && "new-window"@[4] == 'w' && "new-window"@[5] == 'i' && "new-window"@[6] == 'n' && "new-window"@[7] == 'd' && "new-window"@[8] == 'o' && "new-window"@[9] == 'w',
        "neww"@.len() == 4 && "neww"@[0] == 'n' && "neww"@[1] == 'e' && "neww"@[2] == 'w' && "neww"@[3] == 'w',
        "next"@.len() == 4 && "next"@[0] == 'n' && "next"@[1] == 'e' && "next"@[2] == 'x' && "next"@[3] == 't',
        "next-layout"@.len() == 11 && "next-layout"@[0] == 'n' && "next-layout"@[1] == 'e' && "next-layout"@[2] == 'x' && "next-layout"@[3] == 't' && "next-layout"@[4] == '-' && "next-layout"@[5] == 'l' && "next-layout"@[6] == 'a' && "next-layout"@[7] == 'y' && "next-layout"@[8] == 'o' && "next-layout"@[9] == 'u' && "next-layout"@[10] == 't',
        "next-window"@.len() == 11 && "next-window"@[0] == 'n' && "next-window"@[1] == 'e' && "next-window"@[2] == 'x' && "next-window"@[3] == 't' && "next-window"@[4] == '-' && "next-window"@[5] == 'w' && "next-window"@[6] == 'i' && "next-window"@[7] == 'n' && "next-window"@[8] == 'd' && "next-window"@[9] == 'o' && "next-window"@[10] == 'w',
        "paste-buffer"@.len() == 12 && "paste-buffer"@[0] == 'p' && "paste-buffer"@[1] == 'a' && "paste-buffer"@[2] == 's' && "paste-buffer"@[3] == 't' && "paste-buffer"@[4] == 'e' && "paste-buffer"@[5] == '-' && "paste-buffer"@[6] == 'b' && "paste-buffer"@[7] == 'u' && "paste-buffer"@[8] == 'f' && "paste-buffer"@[9] == 'f' && "paste-buffer"@[10] == 'e' && "paste-buffer"@[11] == 'r',
        "pasteb"@.len() == 6 && "pasteb"@[0] == 'p' && "pasteb"@[1] == 'a' && "pasteb"@[2] == 's' && "pasteb"@[3] == 't' && "pasteb"@[4] == 'e' && "pasteb"@[5] == 'b',
        "pipe-pane"@.len() == 9 && "pipe-pane"@[0] == 'p' && "pipe-pane"@[1] == 'i' && "pipe-pane"@[2] == 'p' && "pipe-pane"@[3] == 'e' && "pipe-pane"@[4] == '-' && "pipe-pane"@[5] == 'p' && "pipe-pane"@[6] == 'a' && "pipe-pane"@[7] == 'n' && "pipe-pane"@[8] == 'e',
        "pipep"@.len() == 5 && "pipep"@[0] == 'p' && "pipep"@[1] == 'i' && "pipep"@[2] == 'p' && "pipep"@[3] == 'e' && "pipep"@[4] == 'p',
        "popup"@.len() == 5 && "popup"@[0] == 'p' && "popup"@[1] == 'o' && "popup"@[2] == 'p' && "popup"@[3] == 'u' && "popup"@[4] == 'p',
        "prev"@.len() == 4 && "prev"@[0] == 'p' && "prev"@[1] == 'r' && "prev"@[2] == 'e' && "prev"@[3] == 'v',
        "previous-layout"@.len() == 15 && "previous-layout"@[0] == 'p' && "previous-layout"@[1] == 'r' && "previous-layout"@[2] == 'e' && "previous-layout"@[3] == 'v' && "previous-layout"@[4] == 'i' && "previous-layout"@[5] == 'o' && "previous-layout"@[6] == 'u' && "previous-layout"@[7] == 's' && "previous-layout"@[8] == '-' && "previous-layout"@[9] == 'l' && "previous-layout"@[10] == 'a' && "previous-layout"@[11] == 'y' && "previous-layout"@[12] == 'o' && "previous-layout"@[13] == 'u' && "previous-layout"@[14] == 't',
        "previous-window"@.len() == 15 && "previous-window"@[0] == 'p' && "previous-window"@[1] == 'r' && "previous-window"@[2] == 'e' && "previous-window"@[3] == 'v' && "previous-window"@[4] == 'i' && "previous-window"@[5] == 'o' && "previous-window"@[6] == 'u' && "previous-window"@[7] == 's' && "previous-window"@[8] == '-' && "previous-window"@[9] == 'w' && "previous-window"@[10] == 'i' && "previous-window"@[11] == 'n' && "previous-window"@[12] == 'd' && "previous-window"@[13] == 'o' && "previous-window"@[14] == 'w',
        "refresh"@.len() == 7 && "refresh"@[0] == 'r' && "refresh"@[1] == 'e' && "refresh"@[2] == 'f' && "refresh"@[3] == 'r' && "refresh"@[4] == 'e' && "refresh"@[5] == 's' && "refresh"@[6] == 'h',
        "refresh-client"@.len() == 14 && "refresh-client"@[0] == 'r' && "refresh-client"@[1] == 'e' && "refresh-client"@[2] == 'f' && "refresh-client"@[3] == 'r' && "refresh-client"@[4] == 'e' && "refresh-client"@[5] == 's' && "refresh-client"@[6] == 'h' && "refresh-client"@[7] == '-' && "refresh-client"@[8] == 'c' && "refresh-client"@[9] == 'l' && "refresh-client"@[10] == 'i' && "refresh-client"@[11] == 'e' && "refresh-client"@[12] == 'n' && "refresh-client"@[13] == 't',
        "rename"@.len() == 6 && "rename"@[0] == 'r' && "rename"@[1] == 'e' && "rename"@[2] == 'n' && "rename"@[3] == 'a' && "rename"@[4] == 'm' && "rename"@[5] == 'e',
        "rename-session"@.len() == 14 && "rename-session"@[0] == 'r' && "rename-session"@[1] == 'e' && "rename-session"@[2] == 'n' && "rename-session"@[3] == 'a' && "rename-session"@[4] == 'm' && "rename-session"@[5] == 'e' && "rename-session"@[6] == '-' && "rename-session"@[7] == 's' && "rename-session"@[8] == 'e' && "rename-session"@[9] == 's' && "rename-session"@[10] == 's' && "rename-session"@[11] == 'i' && "rename-session"@[12] == 'o' && "rename-session"@[13] == 'n',
        "rename-window"@.len() == 13 && "rename-window"@[0] == 'r' && "rename-window"@[1] == 'e' && "rename-window"@[2] == 'n' && "rename-window"@[3] == 'a' && "rename-window"@[4] == 'm' && "rename-window"@[5] == 'e' && "rename-window"@[6] == '-' && "rename-window"@[7] == 'w' && "rename-window"@[8] == 'i' && "rename-window"@[9] == 'n' && "rename-window"@[10] == 'd' && "rename-window"@[11] == 'o' && "rename-window"@[12] == 'w',
        "renamew"@.len() == 7 && "renamew"@[0] == 'r' && "renamew"@[1] == 'e' && "renamew"@[2] == 'n' && "renamew"@[3] == 'a' && "renamew"@[4] == 'm' && "renamew"@[5] == 'e' && "renamew"@[6] == 'w',
        "resize-pane"@.len() == 11 && "resize-pane"@[0] == 'r' && "resize-pane"@[1] == 'e' && "resize-pane"@[2] == 's' && "resize-pane"@[3] == 'i' && "resize-pane"@[4] == 'z' && "resize-pane"@[5] == 'e' && "resize-pane"@[6] == '-' && "resize-pane"@[7] == 'p' && "resize-pane"@[8] == 'a' && "resize-pane"@[9] == 'n' && "resize-pane"@[10] == 'e',
        "resize-window"@.len() == 13 && "resize-window"@[0] == 'r' && "resize-window"@[1] == 'e' && "resize-window"@[2] == 's' && "resize-window"@[3] == 'i' && "resize-window"@[4] == 'z' && "resize-window"@[5] == 'e' && "resize-window"@[6] == '-' && "resize-window"@[7] == 'w' && "resize-window"@[8] == 'i' && "resize-window"@[9] == 'n' && "resize-window"@[10] == 'd' && "resize-window"@[11] == 'o' && "resize-window"@[12] == 'w',
        "resizep"@.len() == 7 && "resizep"@[0] == 'r' && "resizep"@[1] == 'e' && "resizep"@[2] == 's' && "resizep"@[3] == 'i' && "resizep"@[4] == 'z' && "resizep"@[5] == 'e' && "resizep"@[6] == 'p',
        "resizep -Z"@.len() == 10 && "resizep -Z"@[0] == 'r' && "resizep -Z"@[1] == 'e' && "resizep -Z"@[2] == 's' && "resizep -Z"@[3] == 'i' && "resizep -Z"@[4] == 'z' && "resizep -Z"@[5] == 'e' && "resizep -Z"@[6] == 'p' && "resizep -Z"@[7] == ' ' && "resizep -Z"@[8] == '-' && "resizep -Z"@[9] == 'Z',
        "resizew"@.len() == 7 && "resizew"@[0] == 'r' && "resizew"@[1] == 'e' && "resizew"@[2] == 's' && "resizew"@[3] == 'i' && "resizew"@[4] == 'z' && "resizew"@[5] == 'e' && "resizew"@[6] == 'w',
        "resp"@.len() == 4 && "resp"@[0] == 'r' && "resp"@[1] == 'e' && "resp"@[2] == 's' && "resp"@[3] == 'p',
        "respawn-pane"@.len() == 12 && "respawn-pane"@[0] == 'r' && "respawn-pane"@[1] == 'e' && "respawn-pane"@[2] == 's' && "respawn-pane"@[3] == 'p' && "respawn-pane"@[4] == 'a' && "respawn-pane"@[5] == 'w' && "respawn-pane"@[6] == 'n' && "respawn-pane"@[7] == '-' && "respawn-pane"@[8] == 'p' && "respawn-pane"@[9] == 'a' && "respawn-pane"@[10] == 'n' && "respawn-pane"@[11] == 'e',
        "respawn-window"@.len() == 14 && "respawn-window"@[0] == 'r' && "respawn-window"@[1] == 'e' && "respawn-window"@[2] == 's' && "respawn-window"@[3] == 'p' && "respawn-window"@[4] == 'a' && "respawn-window"@[5] == 'w' && "respawn-window"@[6] == 'n' && "respawn-window"@[7] == '-' && "respawn-window"@[8] == 'w' && "respawn-window"@[9] == 'i' && "respawn-window"@[10] == 'n' && "respawn-window"@[11] == 'd' && "respawn-window"@[12] == 'o' && "respawn-window"@[13] == 'w',
        "respawnp"@.len() == 8 && "respawnp"@[0] == 'r' && "respawnp"@[1] == 'e' && "respawnp"@[2] == 's' && "respawnp"@[3] == 'p' && "respawnp"@[4] == 'a' && "respawnp"@[5] == 'w' && "respawnp"@[6] == 'n' && "respawnp"@[7] == 'p',
{
    reveal_strlit("lsc");
    reveal_strlit("lscm");
    reveal_strlit("lsk");
    reveal_strlit("lsp");
    reveal_strlit("lsw");
    reveal_strlit("menu");
    reveal_strlit("move-pane");
    reveal_strlit("move-window");
    reveal_strlit("movep");
    reveal_strlit("movew");
    reveal_strlit("new");
    reveal_strlit("new-session");
    reveal_strlit("new-window");
    reveal_strlit("neww");
    reveal_strlit("next");
    reveal_strlit("next-layout");
    reveal_strlit("next-window");
    reveal_strlit("paste-buffer");
    reveal_strlit("pasteb");
    reveal_strlit("pipe-pane");
    reveal_strlit("pipep");
    reveal_strlit("popup");
    reveal_strlit("prev");
    reveal_strlit("previous-layout");
    reveal_strlit("previous-window");
    reveal_strlit("refresh");
    reveal_strlit("refresh-client");
    reveal_strlit("rename");
    reveal_strlit("rename-session");
    reveal_strlit("rename-window");
    reveal_strlit("renamew");
    reveal_strlit("resize-pane");
    reveal_strlit("resize-window");
    reveal_strlit("resizep");
    reveal_strlit("resizep -Z");
    reveal_strlit("resizew");
    reveal_strlit("resp");
    reveal_strlit("respawn-pane");
    reveal_strlit("respawn-window");
    reveal_strlit("respawnp");
}

proof fn lemma_words_3()
    ensures
        "respawnw"@.len() == 8 && "respawnw"@[0] == 'r' && "respawnw"@[1] == 'e' && "respawnw"@[2] == 's' && "respawnw"@[3] == 'p' && "respawnw"@[4] == 'a' && "respawnw"@[5] == 'w' && "respawnw"@[6] == 'n' && "respawnw"@[7] == 'w',
        "rotate-window"@.len() == 13 && "rotate-window"@[0] == 'r' && "rotate-window"@[1] == 'o' && "rotate-window"@[2] == 't' && "rotate-window"@[3] == 'a' && "rotate-window"@[4] == 't' && "rotate-window"@[5] == 'e' && "rotate-window"@[6] == '-' && "rotate-window"@[7] == 'w' && "rotate-window"@[8] == 'i' && "rotate-window"@[9] == 'n' && "rotate-window"@[10] == 'd' && "rotate-window"@[11] == 'o' && "rotate-window"@[12] == 'w',
        "rotatew"@.len() == 7 && "rotatew"@[0] == 'r' && "rotatew"@[1] == 'o' && "rotatew"@[2] == 't' && "rotatew"@[3] == 'a' && "rotatew"@[4] == 't' && "rotatew"@[5] == 'e' && "rotatew"@[6] == 'w',
        "run"@.len() == 3 && "run"@[0] == 'r' && "run"@[1] == 'u' && "run"@[2] == 'n',
        "run-shell"@.len() == 9 && "run-shell"@[0] == 'r' && "run-shell"@[1] == 'u' && "run-shell"@[2] == 'n' && "run-shell"@[3] == '-' && "run-shell"@[4] == 's' && "run-shell"@[5] == 'h' && "run-shell"@[6] == 'e' && "run-shell"@[7] == 'l' && "run-shell"@[8] == 'l',
        "save-buffer"@.len() == 11 && "save-buffer"@[0] == 's' && "save-buffer"@[1] == 'a' && "save-buffer"@[2] == 'v' && "save-buffer"@[3] == 'e' && "save-buffer"@[4] == '-' && "save-buffer"@[5] == 'b' && "save-buffer"@[6] == 'u' && "save-buffer"@[7] == 'f' && "save-buffer"@[8] == 'f' && "save-buffer"@[9] == 'e' && "save-buffer"@[10] == 'r',
        "saveb"@.len() == 5 && "saveb"@[0] == 's' && "saveb"@[1] == 'a' && "saveb"@[2] == 'v' && "saveb"@[3] == 'e' && "saveb"@[4] == 'b',
        "select-layout"@.len() == 13 && "select-layout"@[0] == 's' && "select-layout"@[1] == 'e' && "select-layout"@[2] == 'l' && "select-layout"@[3] == 'e' && "select-layout"@[4] == 'c' && "select-layout"@[5] == 't' && "select-layout"@[6] == '-' && "select-layout"@[7] == 'l' && "select-layout"@[8] == 'a' && "select-layout"@[9] == 'y' && "select-layout"@[10] == 'o' && "select-layout"@[11] == 'u' && "select-layout"@[12] == 't',
        "select-pane"@.len() == 11 && "select-pane"@[0] == 's' && "select-pane"@[1] == 'e' && "select-pane"@[2] == 'l' && "select-pane"@[3] == 'e' && "select-pane"@[4] == 'c' && "select-pane"@[5] == 't' && "select-pane"@[6] == '-' && "select-pane"@[7] == 'p' && "select-pane"@[8] == 'a' && "select-pane"@[9] == 'n' && "select-pane"@[10] == 'e',
        "select-window"@.len() == 13 && "select-window"@[0] == 's' && "select-window"@[1] == 'e' && "select-window"@[2] == 'l' && "select-window"@[3] == 'e' && "select-window"@[4] == 'c' && "select-window"@[5] == 't' && "select-window"@[6] == '-' && "select-window"@[7] == 'w' && "select-window"@[8] == 'i' && "select-window"@[9] == 'n' && "select-window"@[10] == 'd' && "select-window"@[11] == 'o' && "select-window"@[12] == 'w',
        "selectl"@.len() == 7 && "selectl"@[0] == 's' && "selectl"@[1] == 'e' && "selectl"@[2] == 'l' && "selectl"@[3] == 'e' && "selectl"@[4] == 'c' && "selectl"@[5] == 't' && "selectl"@[6] == 'l',
        "selectp"@.len() == 7 && "selectp"@[0] == 's' && "selectp"@[1] == 'e' && "selectp"@[2] == 'l' && "selectp"@[3] == 'e' && "selectp"@[4] == 'c' && "selectp"@[5] == 't' && "selectp"@[6] == 'p',
        "selectw"@.len() == 7 && "selectw"@[0] == 's' && "selectw"@[1] == 'e' && "selectw"@[2] == 'l' && "selectw"@[3] == 'e' && "selectw"@[4] == 'c' && "selectw"@[5] == 't' && "selectw"@[6] == 'w',
        "send"@.len() == 4 && "send"@[0] == 's' && "send"@[1] == 'e' && "send"@[2] == 'n' && "send"@[3] == 'd',
        "send-key"@.len() == 8 && "send-key"@[0] == 's' && "send-key"@[1] == 'e' && "send-key"@[2] == 'n' && "send-key"@[3] == 'd' && "send-key"@[4] == '-' && "send-key"@[5] == 'k' && "send-key"@[6] == 'e' && "send-key"@[7] == 'y',
        "send-keys"@.len() == 9 && "send-keys"@[0] == 's' && "send-keys"@[1] == 'e' && "send-keys"@[2] == 'n' && "send-keys"@[3] == 'd' && "send-keys"@[4] == '-' && "send-keys"@[5] == 'k' && "send-keys"@[6] == 'e' && "send-keys"@[7] == 'y' && "send-keys"@[8] == 's',
        "send-paste"@.len() == 10 && "send-paste"@[0] == 's' && "send-paste"@[1] == 'e' && "send-paste"@[2] == 'n' && "send-paste"@[3] == 'd' && "send-paste"@[4] == '-' && "send-paste"@[5] == 'p' && "send-paste"@[6] == 'a' && "send-paste"@[7] == 's' && "send-paste"@[8] == 't' && "send-paste"@[9] == 'e',
        "send-prefix"@.len() == 11 && "send-prefix"@[0] == 's' && "send-prefix"@[1] == 'e' && "send-prefix"@[2] == 'n' && "send-prefix"@[3] == 'd' && "send-prefix"@[4] == '-' && "send-prefix"@[5] == 'p' && "send-prefix"@[6] == 'r' && "send-prefix"@[7] == 'e' && "send-prefix"@[8] == 'f' && "send-prefix"@[9] == 'i' && "send-prefix"@[10] == 'x',
        "server"@.len() == 6 && "server"@[0] == 's' && "server"@[1] == 'e' && "server"@[2] == 'r' && "server"@[3] == 'v' && "server"@[4] == 'e' && "server"@[5] == 'r',
        "server-info"@.len() == 11 && "server-info"@[0] == 's' && "server-info"@[1] == 'e' && "server-info"@[2] == 'r' && "server-info"@[3] == 'v' && "server-info"@[4] == 'e' && "server-info"@[5] == 'r' && "server-info"@[6] == '-' && "server-info"@[7] == 'i' && "server-info"@[8] == 'n' && "server-info"@[9] == 'f' && "server-info"@[10] == 'o',
        "set"@.len() == 3 && "set"@[0] == 's' && "set"@[1] == 'e' && "set"@[2] == 't',
        "set-buffer"@.len() == 10 && "set-buffer"@[0] == 's' && "set-buffer"@[1] == 'e' && "set-buffer"@[2] == 't' && "set-buffer"@[3] == '-' && "set-buffer"@[4] == 'b' && "set-buffer"@[5] == 'u' && "set-buffer"@[6] == 'f' && "set-buffer"@[7] == 'f' && "set-buffer"@[8] == 'e' && "set-buffer"@[9] == 'r',
        "set-environment"@.len() == 15 && "set-environment"@[0] == 's' && "set-environment"@[1] == 'e' && "set-environment"@[2] == 't' && "set-environment"@[3] == '-' && "set-environment"@[4] == 'e' && "set-environment"@[5] == 'n' && "set-environment"@[6] == 'v' && "set-environment"@[7] == 'i' && "set-environment"@[8] == 'r' && "set-environment"@[9] == 'o' && "set-environment"@[10] == 'n' && "set-environment"@[11] == 'm' && "set-environment"@[12] == 'e' && "set-environment"@[13] == 'n' && "set-environment"@[14] == 't',
        "set-hook"@.len() == 8 && "set-hook"@[0] == 's' && "set-hook"@[1] == 'e' && "set-hook"@[2] == 't' && "set-hook"@[3] == '-' && "set-hook"@[4] == 'h' && "set-hook"@[5] == 'o' && "set-hook"@[6] == 'o' && "set-hook"@[7] == 'k',
        "set-option"@.len() == 10 && "set-option"@[0] == 's' && "set-option"@[1] == 'e' && "set-option"@[2] == 't' && "set-option"@[3] == '-' && "set-option"@[4] == 'o' && "set-option"@[5] == 'p' && "set-option"@[6] == 't' && "set-option"@[7] == 'i' && "set-option"@[8] == 'o' && "set-option"@[9] == 'n',
        "set-window-option"@.len() == 17 && "set-window-option"@[0] == 's' && "set-window-option"@[1] == 'e' && "set-window-option"@[2] == 't' && "set-window-option"@[3] == '-' && "set-window-option"@[4] == 'w' && "set-window-option"@[5] == 'i' && "set-window-option"@[6] == 'n' && "set-window-option"@[7] == 'd' && "set-window-option"@[8] == 'o' && "set-window-option"@[9] == 'w' && "set-window-option"@[10] == '-' && "set-window-option"@[11] == 'o' && "set-window-option"@[12] == 'p' && "set-window-option"@[13] == 't' && "set-window-option"@[14] == 'i' && "set-window-option"@[15] == 'o' && "set-window-option"@[16] == 'n',
        "setb"@.len() == 4 && "setb"@[0] == 's' && "setb"@[1] == 'e' && "setb"@[2] == 't' && "setb"@[3] == 'b',
        "setenv"@.len() == 6 && "setenv"@[0] == 's' && "setenv"@[1] == 'e' && "setenv"@[2] == 't' && "setenv"@[3] == 'e' && "setenv"@[4] == 'n' && "setenv"@[5] == 'v',
        "setw"@.len() == 4 && "setw"@[0] == 's' && "setw"@[1] == 'e' && "setw"@[2] == 't' && "setw"@[3] == 'w',
        "show"@.len() == 4 && "show"@[0] == 's' && "show"@[1] == 'h' && "show"@[2] == 'o' && "show"@[3] == 'w',
        "show-buffer"@.len() == 11 && "show-buffer"@[0] == 's' && "show-buffer"@[1] == 'h' && "show-buffer"@[2] == 'o' && "show-buffer"@[3] == 'w' && "show-buffer"@[4] == '-' && "show-buffer"@[5] == 'b' && "show-buffer"@[6] == 'u' && "show-buffer"@[7] == 'f' && "show-buffer"@[8] == 'f' && "show-buffer"@[9] == 'e' && "show-buffer"@[10] == 'r',
        "show-environment"@.len() == 16 && "show-environment"@[0] == 's' && "show-environment"@[1] == 'h' && "show-environment"@[2] == 'o' && "show-environment"@[3] == 'w' && "show-environment"@[4] == '-' && "show-environment"@[5] == 'e' && "show-environment"@[6] == 'n' && "show-environment"@[7] == 'v' && "show-environment"@[8] == 'i' && "show-environment"@[9] == 'r' && "show-environment"@[10] == 'o' && "show-environment"@[11] == 'n' && "show-environment"@[12] == 'm' && "show-environment"@[13] == 'e' && "show-environment"@[14] == 'n' && "show-environment"@[15] == 't',
        "show-hooks"@.len() == 10 && "show-hooks"@[0] == 's' && "show-hooks"@[1] == 'h' && "show-hooks"@[2] == 'o' && "show-hooks"@[3] == 'w' && "show-hooks"@[4] == '-' && "show-hooks"@[5] == 'h' && "show-hooks"@[6] == 'o' && "show-hooks"@[7] == 'o' && "show-hooks"@[8] == 'k' && "show-hooks"@[9] == 's',
        "show-messages"@.len() == 13 && "show-messages"@[0] == 's' && "show-messages"@[1] == 'h' && "show-messages"@[2] == 'o' && "show-messages"@[3] == 'w' && "show-messages"@[4] == '-' && "show-messages"@[5] == 'm' && "show-messages"@[6] == 'e' && "show-messages"@[7] == 's' && "show-messages"@[8] == 's' && "show-messages"@[9] == 'a' && "show-messages"@[10] == 'g' && "show-messages"@[11] == 'e' && "show-messages"@[12] == 's',
        "show-options"@.len() == 12 && "show-options"@[0] == 's' && "show-options"@[1] == 'h' && "show-options"@[2] == 'o' && "show-options"@[3] == 'w' && "show-options"@[4] == '-' && "show-options"@[5] == 'o' && "show-options"@[6] == 'p' && "show-options"@[7] == 't' && "show-options"@[8] == 'i' && "show-options"@[9] == 'o' && "show-options"@[10] == 'n' && "show-options"@[11] == 's',
        "show-window-options"@.len() == 19 && "show-window-options"@[0] == 's' && "show-window-options"@[1] == 'h' && "show-window-options"@[2] == 'o' && "show-window-options"@[3] == 'w' && "show-window-options"@[4] == '-' && "show-window-options"@[5] == 'w' && "show-window-options"@[6] == 'i' && "show-window-options"@[7] == 'n' && "show-window-options"@[8] == 'd' && "show-window-options"@[9] == 'o' && "show-window-options"@[10] == 'w' && "show-window-options"@[11] == '-' && "show-window-options"@[12] == 'o' && "show-window-options"@[13] == 'p' && "show-window-options"@[14] == 't' && "show-window-options"@[15] == 'i' && "show-window-options"@[16] == 'o' && "show-window-options"@[17] == 'n' && "show-window-options"@[18] == 's',
        "showb"@.len() == 5 && "showb"@[0] == 's' && "showb"@[1] == 'h' && "showb"@[2] == 'o' && "showb"@[3] == 'w' && "showb"@[4] == 'b',
        "showenv"@.len() == 7 && "showenv"@[0] == 's' && "showenv"@[1] == 'h' && "showenv"@[2] == 'o' && "showenv"@[3] == 'w' && "showenv"@[4] == 'e' && "showenv"@[5] == 'n' && "showenv"@[6] == 'v',
        "showmsgs"@.len() == 8 && "showmsgs"@[0] == 's' && "showmsgs"@[1] == 'h' && "showmsgs"@[2] == 'o' && "showmsgs"@[3] == 'w' && "showmsgs"@[4] == 'm' && "showmsgs"@[5] == 's' && "showmsgs"@[6] == 'g' && "showmsgs"@[7] == 's',
        "showw"@.len() == 5 && "showw"@[0] == 's' && "showw"@[1] == 'h' && "showw"@[2] == 'o' && "showw"@[3] == 'w' && "showw"@[4] == 'w',
{
    reveal_strlit("respawnw");
    reveal_strlit("rotate-window");
    reveal_strlit("rotatew");
    reveal_strlit("run");
    reveal_strlit("run-shell");
    reveal_strlit("save-buffer");
    reveal_strlit("saveb");
    reveal_strlit("select-layout");
    reveal_strlit("select-pane");
    reveal_strlit("select-window");
    reveal_strlit("selectl");
    reveal_strlit("selectp");
    reveal_strlit("selectw");
    reveal_strlit("send");
    reveal_strlit("send-key");
    reveal_strlit("send-keys");
    reveal_strlit("send-paste");
    reveal_strlit("send-prefix");
    reveal_strlit("server");
    reveal_strlit("server-info");
    reveal_strlit("set");
    reveal_strlit("set-buffer");
    reveal_strlit("set-environment");
    reveal_strlit("set-hook");
    reveal_strlit("set-option");
    reveal_strlit("set-window-option");
    reveal_strlit("setb");
    reveal_strlit("setenv");
    reveal_strlit("setw");
    reveal_strlit("show");
    reveal_strlit("show-buffer");
    reveal_strlit("show-environment");
    reveal_strlit("show-hooks");
    reveal_strlit("show-messages");
    reveal_strlit("show-options");
    reveal_strlit("show-window-options");
    reveal_strlit("showb");
    reveal_strlit("showenv");
    reveal_strlit("showmsgs");
    reveal_strlit("showw");
}

proof fn lemma_words_4()
    ensures
        "source"@.len() == 6 && "source"@[0] == 's' && "source"@[1] == 'o' && "source"@[2] == 'u' && "source"@[3] == 'r' && "source"@[4] == 'c' && "source"@[5] == 'e',
        "source-file"@.len() == 11 && "source-file"@[0] == 's' && "source-file"@[1] == 'o' && "source-file"@[2] == 'u' && "source-file"@[3] == 'r' && "source-file"@[4] == 'c' && "source-file"@[5] == 'e' && "source-file"@[6] == '-' && "source-file"@[7] == 'f' && "source-file"@[8] == 'i' && "source-file"@[9] == 'l' && "source-file"@[10] == 'e',
        "split-window"@.len() == 12 && "split-window"@[0] == 's' && "split-window"@[1] == 'p' && "split-window"@[2] == 'l' && "split-window"@[3] == 'i' && "split-window"@[4] == 't' && "split-window"@[5] == '-' && "split-window"@[6] == 'w' && "split-window"@[7] == 'i' && "split-window"@[8] == 'n' && "split-window"@[9] == 'd' && "split-window"@[10] == 'o' && "split-window"@[11] == 'w',
        "splitw"@.len() == 6 && "splitw"@[0] == 's' && "splitw"@[1] == 'p' && "splitw"@[2] == 'l' && "splitw"@[3] == 'i' && "splitw"@[4] == 't' && "splitw"@[5] == 'w',
        "start"@.len() == 5 && "start"@[0] == 's' && "start"@[1] == 't' && "start"@[2] == 'a' && "start"@[3] == 'r' && "start"@[4] == 't',
        "start-server"@.len() == 12 && "start-server"@[0] == 's' && "start-server"@[1] == 't' && "start-server"@[2] == 'a' && "start-server"@[3] == 'r' && "start-server"@[4] == 't' && "start-server"@[5] == '-' && "start-server"@[6] == 's' && "start-server"@[7] == 'e' && "start-server"@[8] == 'r' && "start-server"@[9] == 'v' && "start-server"@[10] == 'e' && "start-server"@[11] == 'r',
        "suspend-client"@.len() == 14 && "suspend-client"@[0] == 's' && "suspend-client"@[1] == 'u' && "suspend-client"@[2] == 's' && "suspend-client"@[3] == 'p' && "suspend-client"@[4] == 'e' && "suspend-client"@[5] == 'n' && "suspend-client"@[6] == 'd' && "suspend-client"@[7] == '-' && "suspend-client"@[8] == 'c' && "suspend-client"@[9] == 'l' && "suspend-client"@[10] == 'i' && "suspend-client"@[11] == 'e' && "suspend-client"@[12] == 'n' && "suspend-client"@[13] == 't',
        "suspendc"@.len() == 8 && "suspendc"@[0] == 's' && "suspendc"@[1] == 'u' && "suspendc"@[2] == 's' && "suspendc"@[3] == 'p' && "suspendc"@[4] == 'e' && "suspendc"@[5] == 'n' && "suspendc"@[6] == 'd' && "suspendc"@[7] == 'c',
        "swap-pane"@.len() == 9 && "swap-pane"@[0] == 's' && "swap-pane"@[1] == 'w' && "swap-pane"@[2] == 'a' && "swap-pane"@[3] == 'p' && "swap-pane"@[4] == '-' && "swap-pane"@[5] == 'p' && "swap-pane"@[6] == 'a' && "swap-pane"@[7] == 'n' && "swap-pane"@[8] == 'e',
        "swap-window"@.len() == 11 && "swap-window"@[0] == 's' && "swap-window"@[1] == 'w' && "swap-window"@[2] == 'a' && "swap-window"@[3] == 'p' && "swap-window"@[4] == '-' && "swap-window"@[5] == 'w' && "swap-window"@[6] == 'i' && "swap-window"@[7] == 'n' && "swap-window"@[8] == 'd' && "swap-window"@[9] == 'o' && "swap-window"@[10] == 'w',
        "swapp"@.len() == 5 && "swapp"@[0] == 's' && "swapp"@[1] == 'w' && "swapp"@[2] == 'a' && "swapp"@[3] == 'p' && "swapp"@[4] == 'p',
        "swapw"@.len() == 5 && "swapw"@[0] == 's' && "swapw"@[1] == 'w' && "swapw"@[2] == 'a' && "swapw"@[3] == 'p' && "swapw"@[4] == 'w',
        "switch-client"@.len() == 13 && "switch-client"@[0] == 's' && "switch-client"@[1] == 'w' && "switch-client"@[2] == 'i' && "switch-client"@[3] == 't' && "switch-client"@[4] == 'c' && "switch-client"@[5] == 'h' && "switch-client"@[6] == '-' && "switch-client"@[7] == 'c' && "switch-client"@[8] == 'l' && "switch-client"@[9] == 'i' && "switch-client"@[10] == 'e' && "switch-client"@[11] == 'n' && "switch-client"@[12] == 't',
        "switchc"@.len() == 7 && "switchc"@[0] == 's' && "switchc"@[1] == 'w' && "switchc"@[2] == 'i' && "switchc"@[3] == 't' && "switchc"@[4] == 'c' && "switchc"@[5] == 'h' && "switchc"@[6] == 'c',
        "unbind"@.len() == 6 && "unbind"@[0] == 'u' && "unbind"@[1] == 'n' && "unbind"@[2] == 'b' && "unbind"@[3] == 'i' && "unbind"@[4] == 'n' && "unbind"@[5] == 'd',
        "unbind-key"@.len() == 10 && "unbind-key"@[0] == 'u' && "unbind-key"@[1] == 'n' && "unbind-key"@[2] == 'b' && "unbind-key"@[3] == 'i' && "unbind-key"@[4] == 'n' && "unbind-key"@[5] == 'd' && "unbind-key"@[6] == '-' && "unbind-key"@[7] == 'k' && "unbind-key"@[8] == 'e' && "unbind-key"@[9] == 'y',
        "unlink-window"@.len() == 13 && "unlink-window"@[0] == 'u' && "unlink-window"@[1] == 'n' && "unlink-window"@[2] == 'l' && "unlink-window"@[3] == 'i' && "unlink-window"@[4] == 'n' && "unlink-window"@[5] == 'k' && "unlink-window"@[6] == '-' && "unlink-window"@[7] == 'w' && "unlink-window"@[8] == 'i' && "unlink-window"@[9] == 'n' && "unlink-window"@[10] == 'd' && "unlink-window"@[11] == 'o' && "unlink-window"@[12] == 'w',
        "unlinkw"@.len() == 7 && "unlinkw"@[0] == 'u' && "unlinkw"@[1] == 'n' && "unlinkw"@[2] == 'l' && "unlinkw"@[3] == 'i' && "unlinkw"@[4] == 'n' && "unlinkw"@[5] == 'k' && "unlinkw"@[6] == 'w',
        "version"@.len() == 7 && "version"@[0] == 'v' && "version"@[1] == 'e' && "version"@[2] == 'r' && "version"@[3] == 's' && "version"@[4] == 'i' && "version"@[5] == 'o' && "version"@[6] == 'n',
        "wait"@.len() == 4 && "wait"@[0] == 'w' && "wait"@[1] == 'a' && "wait"@[2] == 'i' && "wait"@[3] == 't',
        "wait-for"@.len() == 8 && "wait-for"@[0] == 'w' && "wait-for"@[1] == 'a' && "wait-for"@[2] == 'i' && "wait-for"@[3] == 't' && "wait-for"@[4] == '-' && "wait-for"@[5] == 'f' && "wait-for"@[6] == 'o' && "wait-for"@[7] == 'r',
        "warmup"@.len() == 6 && "warmup"@[0] == 'w' && "warmup"@[1] == 'a' && "warmup"@[2] == 'r' && "warmup"@[3] == 'm' && "warmup"@[4] == 'u' && "warmup"@[5] == 'p',
        "zoom-pane"@.len() == 9 && "zoom-pane"@[0] == 'z' && "zoom-pane"@[1] == 'o' && "zoom-pane"@[2] == 'o' && "zoom-pane"@[3] == 'm' && "zoom-pane"@[4] == '-' && "zoom-pane"@[5] == 'p' && "zoom-pane"@[6] == 'a' && "zoom-pane"@[7] == 'n' && "zoom-pane"@[8] == 'e',
{
    reveal_strlit("source");
    reveal_strlit("source-file");
    reveal_strlit("split-window");
    reveal_strlit("splitw");
    reveal_strlit("start");
    reveal_strlit("start-server");
    reveal_strlit("suspend-client");
    reveal_strlit("suspendc");
    reveal_strlit("swap-pane");
    reveal_strlit("swap-window");
    reveal_strlit("swapp");
    reveal_strlit("swapw");
    reveal_strlit("switch-client");
    reveal_strlit("switchc");
    reveal_strlit("unbind");
    reveal_strlit("unbind-key");
    reveal_strlit("unlink-window");
    reveal_strlit("unlinkw");
    reveal_strlit("version");
    reveal_strlit("wait");
    reveal_strlit("wait-for");
    reveal_strlit("warmup");
    reveal_strlit("zoom-pane");
}

proof fn lemma_lines()
    ensures
        "choose-buffer\n"@.len() == 14 && "choose-buffer\n"@[0] == 'c' && "choose-buffer\n"@[1] == 'h' && "choose-buffer\n"@[2] == 'o' && "choose-buffer\n"@[3] == 'o' && "choose-buffer\n"@[4] == 's' && "choose-buffer\n"@[5] == 'e' && "choose-buffer\n"@[6] == '-' && "choose-buffer\n"@[7] == 'b' && "choose-buffer\n"@[8] == 'u' && "choose-buffer\n"@[9] == 'f' && "choose-buffer\n"@[10] == 'f' && "choose-buffer\n"@[11] == 'e' && "choose-buffer\n"@[12] == 'r' && "choose-buffer\n"@[13] == '\n',
        "choose-session\n"@.len() == 15 && "choose-session\n"@[0] == 'c' && "choose-session\n"@[1] == 'h' && "choose-session\n"@[2] == 'o' && "choose-session\n"@[3] == 'o' && "choose-session\n"@[4] == 's' && "choose-session\n"@[5] == 'e' && "choose-session\n"@[6] == '-' && "choose-session\n"@[7] == 's' && "choose-session\n"@[8] == 'e' && "choose-session\n"@[9] == 's' && "choose-session\n"@[10] == 's' && "choose-session\n"@[11] == 'i' && "choose-session\n"@[12] == 'o' && "choose-session\n"@[13] == 'n' && "choose-session\n"@[14] == '\n',
        "choose-tree\n"@.len() == 12 && "choose-tree\n"@[0] == 'c' && "choose-tree\n"@[1] == 'h' && "choose-tree\n"@[2] == 'o' && "choose-tree\n"@[3] == 'o' && "choose-tree\n"@[4] == 's' && "choose-tree\n"@[5] == 'e' && "choose-tree\n"@[6] == '-' && "choose-tree\n"@[7] == 't' && "choose-tree\n"@[8] == 'r' && "choose-tree\n"@[9] == 'e' && "choose-tree\n"@[10] == 'e' && "choose-tree\n"@[11] == '\n',
        "choose-window\n"@.len() == 14 && "choose-window\n"@[0] == 'c' && "choose-window\n"@[1] == 'h' && "choose-window\n"@[2] == 'o' && "choose-window\n"@[3] == 'o' && "choose-window\n"@[4] == 's' && "choose-window\n"@[5] == 'e' && "choose-window\n"@[6] == '-' && "choose-window\n"@[7] == 'w' && "choose-window\n"@[8] == 'i' && "choose-window\n"@[9] == 'n' && "choose-window\n"@[10] == 'd' && "choose-window\n"@[11] == 'o' && "choose-window\n"@[12] == 'w' && "choose-window\n"@[13] == '\n',
        "clock-mode\n"@.len() == 11 && "clock-mode\n"@[0] == 'c' && "clock-mode\n"@[1] == 'l' && "clock-mode\n"@[2] == 'o' && "clock-mode\n"@[3] == 'c' && "clock-mode\n"@[4] == 'k' && "clock-mode\n"@[5] == '-' && "clock-mode\n"@[6] == 'm' && "clock-mode\n"@[7] == 'o' && "clock-mode\n"@[8] == 'd' && "clock-mode\n"@[9] == 'e' && "clock-mode\n"@[10] == '\n',
        "customize-mode\n"@.len() == 15 && "customize-mode\n"@[0] == 'c' && "customize-mode\n"@[1] == 'u' && "customize-mode\n"@[2] == 's' && "customize-mode\n"@[3] == 't' && "customize-mode\n"@[4] == 'o' && "customize-mode\n"@[5] == 'm' && "customize-mode\n"@[6] == 'i' && "customize-mode\n"@[7] == 'z' && "customize-mode\n"@[8] == 'e' && "customize-mode\n"@[9] == '-' && "customize-mode\n"@[10] == 'm' && "customize-mode\n"@[11] == 'o' && "customize-mode\n"@[12] == 'd' && "customize-mode\n"@[13] == 'e' && "customize-mode\n"@[14] == '\n',
        "display-panes\n"@.len() == 14 && "display-panes\n"@[0] == 'd' && "display-panes\n"@[1] == 'i' && "display-panes\n"@[2] == 's' && "display-panes\n"@[3] == 'p' && "display-panes\n"@[4] == 'l' && "display-panes\n"@[5] == 'a' && "display-panes\n"@[6] == 'y' && "display-panes\n"@[7] == '-' && "display-panes\n"@[8] == 'p' && "display-panes\n"@[9] == 'a' && "display-panes\n"@[10] == 'n' && "display-panes\n"@[11] == 'e' && "display-panes\n"@[12] == 's' && "display-panes\n"@[13] == '\n',
        "kill-pane\n"@.len() == 10 && "kill-pane\n"@[0] == 'k' && "kill-pane\n"@[1] == 'i' && "kill-pane\n"@[2] == 'l' && "kill-pane\n"@[3] == 'l' && "kill-pane\n"@[4] == '-' && "kill-pane\n"@[5] == 'p' && "kill-pane\n"@[6] == 'a' && "kill-pane\n"@[7] == 'n' && "kill-pane\n"@[8] == 'e' && "kill-pane\n"@[9] == '\n',
        "last-pane\n"@.len() == 10 && "last-pane\n"@[0] == 'l' && "last-pane\n"@[1] == 'a' && "last-pane\n"@[2] == 's' && "last-pane\n"@[3] == 't' && "last-pane\n"@[4] == '-' && "last-pane\n"@[5] == 'p' && "last-pane\n"@[6] == 'a' && "last-pane\n"@[7] == 'n' && "last-pane\n"@[8] == 'e' && "last-pane\n"@[9] == '\n',
        "last-window\n"@.len() == 12 && "last-window\n"@[0] == 'l' && "last-window\n"@[1] == 'a' && "last-window\n"@[2] == 's' && "last-window\n"@[3] == 't' && "last-window\n"@[4] == '-' && "last-window\n"@[5] == 'w' && "last-window\n"@[6] == 'i' && "last-window\n"@[7] == 'n' && "last-window\n"@[8] == 'd' && "last-window\n"@[9] == 'o' && "last-window\n"@[10] == 'w' && "last-window\n"@[11] == '\n',
        "list-clients\n"@.len() == 13 && "list-clients\n"@[0] == 'l' && "list-clients\n"@[1] == 'i' && "list-clients\n"@[2] == 's' && "list-clients\n"@[3] == 't' && "list-clients\n"@[4] == '-' && "list-clients\n"@[5] == 'c' && "list-clients\n"@[6] == 'l' && "list-clients\n"@[7] == 'i' && "list-clients\n"@[8] == 'e' && "list-clients\n"@[9] == 'n' && "list-clients\n"@[10] == 't' && "list-clients\n"@[11] == 's' && "list-clients\n"@[12] == '\n',
        "next-layout\n"@.len() == 12 && "next-layout\n"@[0] == 'n' && "next-layout\n"@[1] == 'e' && "next-layout\n"@[2] == 'x' && "next-layout\n"@[3] == 't' && "next-layout\n"@[4] == '-' && "next-layout\n"@[5] == 'l' && "next-layout\n"@[6] == 'a' && "next-layout\n"@[7] == 'y' && "next-layout\n"@[8] == 'o' && "next-layout\n"@[9] == 'u' && "next-layout\n"@[10] == 't' && "next-layout\n"@[11] == '\n',
        "next-window\n"@.len() == 12 && "next-window\n"@[0] == 'n' && "next-window\n"@[1] == 'e' && "next-window\n"@[2] == 'x' && "next-window\n"@[3] == 't' && "next-window\n"@[4] == '-' && "next-window\n"@[5] == 'w' && "next-window\n"@[6] == 'i' && "next-window\n"@[7] == 'n' && "next-window\n"@[8] == 'd' && "next-window\n"@[9] == 'o' && "next-window\n"@[10] == 'w' && "next-window\n"@[11] == '\n',
        "previous-layout\n"@.len() == 16 && "previous-layout\n"@[0] == 'p' && "previous-layout\n"@[1] == 'r' && "previous-layout\n"@[2] == 'e' && "previous-layout\n"@[3] == 'v' && "previous-layout\n"@[4] == 'i' && "previous-layout\n"@[5] == 'o' && "previous-layout\n"@[6] == 'u' && "previous-layout\n"@[7] == 's' && "previous-layout\n"@[8] == '-' && "previous-layout\n"@[9] == 'l' && "previous-layout\n"@[10] == 'a' && "previous-layout\n"@[11] == 'y' && "previous-layout\n"@[12] == 'o' && "previous-layout\n"@[13] == 'u' && "previous-layout\n"@[14] == 't' && "previous-layout\n"@[15] == '\n',
        "previous-window\n"@.len() == 16 && "previous-window\n"@[0] == 'p' && "previous-window\n"@[1] == 'r' && "previous-window\n"@[2] == 'e' && "previous-window\n"@[3] == 'v' && "previous-window\n"@[4] == 'i' && "previous-window\n"@[5] == 'o' && "previous-window\n"@[6] == 'u' && "previous-window\n"@[7] == 's' && "previous-window\n"@[8] == '-' && "previous-window\n"@[9] == 'w' && "previous-window\n"@[10] == 'i' && "previous-window\n"@[11] == 'n' && "previous-window\n"@[12] == 'd' && "previous-window\n"@[13] == 'o' && "previous-window\n"@[14] == 'w' && "previous-window\n"@[15] == '\n',
        "respawn-window\n"@.len() == 15 && "respawn-window\n"@[0] == 'r' && "respawn-window\n"@[1] == 'e' && "respawn-window\n"@[2] == 's' && "respawn-window\n"@[3] == 'p' && "respawn-window\n"@[4] == 'a' && "respawn-window\n"@[5] == 'w' && "respawn-window\n"@[6] == 'n' && "respawn-window\n"@[7] == '-' && "respawn-window\n"@[8] == 'w' && "respawn-window\n"@[9] == 'i' && "respawn-window\n"@[10] == 'n' && "respawn-window\n"@[11] == 'd' && "respawn-window\n"@[12] == 'o' && "respawn-window\n"@[13] == 'w' && "respawn-window\n"@[14] == '\n',
        "send-prefix\n"@.len() == 12 && "send-prefix\n"@[0] == 's' && "send-prefix\n"@[1] == 'e' && "send-prefix\n"@[2] == 'n' && "send-prefix\n"@[3] == 'd' && "send-prefix\n"@[4] == '-' && "send-prefix\n"@[5] == 'p' && "send-prefix\n"@[6] == 'r' && "send-prefix\n"@[7] == 'e' && "send-prefix\n"@[8] == 'f' && "send-prefix\n"@[9] == 'i' && "send-prefix\n"@[10] == 'x' && "send-prefix\n"@[11] == '\n',
        "server-info\n"@.len() == 12 && "server-info\n"@[0] == 's' && "server-info\n"@[1] == 'e' && "server-info\n"@[2] == 'r' && "server-info\n"@[3] == 'v' && "server-info\n"@[4] == 'e' && "server-info\n"@[5] == 'r' && "server-info\n"@[6] == '-' && "server-info\n"@[7] == 'i' && "server-info\n"@[8] == 'n' && "server-info\n"@[9] == 'f' && "server-info\n"@[10] == 'o' && "server-info\n"@[11] == '\n',
        "show-messages\n"@.len() == 14 && "show-messages\n"@[0] == 's' && "show-messages\n"@[1] == 'h' && "show-messages\n"@[2] == 'o' && "show-messages\n"@[3] == 'w' && "show-messages\n"@[4] == '-' && "show-messages\n"@[5] == 'm' && "show-messages\n"@[6] == 'e' && "show-messages\n"@[7] == 's' && "show-messages\n"@[8] == 's' && "show-messages\n"@[9] == 'a' && "show-messages\n"@[10] == 'g' && "show-messages\n"@[11] == 'e' && "show-messages\n"@[12] == 's' && "show-messages\n"@[13] == '\n',
        "unlink-window\n"@.len() == 14 && "unlink-window\n"@[0] == 'u' && "unlink-window\n"@[1] == 'n' && "unlink-window\n"@[2] == 'l' && "unlink-window\n"@[3] == 'i' && "unlink-window\n"@[4] == 'n' && "unlink-window\n"@[5] == 'k' && "unlink-window\n"@[6] == '-' && "unlink-window\n"@[7] == 'w' && "unlink-window\n"@[8] == 'i' && "unlink-window\n"@[9] == 'n' && "unlink-window\n"@[10] == 'd' && "unlink-window\n"@[11] == 'o' && "unlink-window\n"@[12] == 'w' && "unlink-window\n"@[13] == '\n',
        "zoom-pane\n"@.len() == 10 && "zoom-pane\n"@[0] == 'z' && "zoom-pane\n"@[1] == 'o' && "zoom-pane\n"@[2] == 'o' && "zoom-pane\n"@[3] == 'm' && "zoom-pane\n"@[4] == '-' && "zoom-pane\n"@[5] == 'p' && "zoom-pane\n"@[6] == 'a' && "zoom-pane\n"@[7] == 'n' && "zoom-pane\n"@[8] == 'e' && "zoom-pane\n"@[9] == '\n',
{
    reveal_strlit("choose-buffer\n");
    reveal_strlit("choose-session\n");
    reveal_strlit("choose-tree\n");
    reveal_strlit("choose-window\n");
    reveal_strlit("clock-mode\n");
    reveal_strlit("customize-mode\n");
    reveal_strlit("display-panes\n");
    reveal_strlit("kill-pane\n");
    reveal_strlit("last-pane\n");
    reveal_strlit("last-window\n");
    reveal_strlit("list-clients\n");
    reveal_strlit("next-layout\n");
    reveal_strlit("next-window\n");
    reveal_strlit("previous-layout\n");
    reveal_strlit("previous-window\n");
    reveal_strlit("respawn-window\n");
    reveal_strlit("send-prefix\n");
    reveal_strlit("server-info\n");
    reveal_strlit("show-messages\n");
    reveal_strlit("unlink-window\n");
    reveal_strlit("zoom-pane\n");
}

/// A fixed line is a command's long name and a line feed; the short names of a command send the same
/// line as the long one.
pub proof fn fixed_line_is_the_long_name(w: Seq<char>)
    ensures
        fixed_line_text(w) matches Some(line) ==> line.len() > 0 && line.last() == '\n' && fixed_line_text(
            line.drop_last(),
        ) == Some(line),
        printed_line_text(w) matches Some(line) ==> line.len() > 0 && line.last() == '\n'
            && printed_line_text(line.drop_last()) == Some(line),
{
    lemma_words_0();
    lemma_words_1();
    lemma_words_2();
    lemma_words_3();
    lemma_words_4();
    lemma_lines();
    assert("kill-pane\n"@.drop_last() =~= "kill-pane"@);
    assert("last-window\n"@.drop_last() =~= "last-window"@);
    assert("last-pane\n"@.drop_last() =~= "last-pane"@);
    assert("next-window\n"@.drop_last() =~= "next-window"@);
    assert("previous-window\n"@.drop_last() =~= "previous-window"@);
    assert("display-panes\n"@.drop_last() =~= "display-panes"@);
    assert("zoom-pane\n"@.drop_last() =~= "zoom-pane"@);
    assert("clock-mode\n"@.drop_last() =~= "clock-mode"@);
    assert("next-layout\n"@.drop_last() =~= "next-layout"@);
    assert("previous-layout\n"@.drop_last() =~= "previous-layout"@);
    assert("choose-tree\n"@.drop_last() =~= "choose-tree"@);
    assert("choose-window\n"@.drop_last() =~= "choose-window"@);
    assert("choose-session\n"@.drop_last() =~= "choose-session"@);
    assert("send-prefix\n"@.drop_last() =~= "send-prefix"@);
    assert("customize-mode\n"@.drop_last() =~= "customize-mode"@);
    assert("respawn-window\n"@.drop_last() =~= "respawn-window"@);
    assert("unlink-window\n"@.drop_last() =~= "unlink-window"@);
    assert("list-clients\n"@.drop_last() =~= "list-clients"@);
    assert("choose-buffer\n"@.drop_last() =~= "choose-buffer"@);
    assert("server-info\n"@.drop_last() =~= "server-info"@);
    assert("show-messages\n"@.drop_last() =~= "show-messages"@);
}

/// What short names stand for.
pub proof fn short_names_send_the_long_ones()
    ensures
        fixed_line_text("kill-pane"@) == Some("kill-pane"@ + seq!['\n']),
        fixed_line_text("killp"@) == Some("kill-pane"@ + seq!['\n']),
        fixed_line_text("last-window"@) == Some("last-window"@ + seq!['\n']),
        fixed_line_text("last"@) == Some("last-window"@ + seq!['\n']),
        fixed_line_text("last-pane"@) == Some("last-pane"@ + seq!['\n']),
        fixed_line_text("lastp"@) == Some("last-pane"@ + seq!['\n']),
        fixed_line_text("next-window"@) == Some("next-window"@ + seq!['\n']),
        fixed_line_text("next"@) == Some("next-window"@ + seq!['\n']),
        fixed_line_text("previous-window"@) == Some("previous-window"@ + seq!['\n']),
        fixed_line_text("prev"@) == Some("previous-window"@ + seq!['\n']),
        fixed_line_text("display-panes"@) == Some("display-panes"@ + seq!['\n']),
        fixed_line_text("displayp"@) == Some("display-panes"@ + seq!['\n']),
        fixed_line_text("zoom-pane"@) == Some("zoom-pane"@ + seq!['\n']),
        fixed_line_text("resizep -Z"@) == Some("zoom-pane"@ + seq!['\n']),
        fixed_line_text("clock-mode"@) == Some("clock-mode"@ + seq!['\n']),
        fixed_line_text("next-layout"@) == Some("next-layout"@ + seq!['\n']),
        fixed_line_text("previous-layout"@) == Some("previous-layout"@ + seq!['\n']),
        fixed_line_text("choose-tree"@) == Some("choose-tree"@ + seq!['\n']),
        fixed_line_text("choose-window"@) == Some("choose-window"@ + seq!['\n']),
        fixed_line_text("choose-session"@) == Some("choose-session"@ + seq!['\n']),
        fixed_line_text("send-prefix"@) == Some("send-prefix"@ + seq!['\n']),
        fixed_line_text("customize-mode"@) == Some("customize-mode"@ + seq!['\n']),
        fixed_line_text("respawn-window"@) == Some("respawn-window"@ + seq!['\n']),
        fixed_line_text("respawnw"@) == Some("respawn-window"@ + seq!['\n']),
        fixed_line_text("unlink-window"@) == Some("unlink-window"@ + seq!['\n']),
        fixed_line_text("unlinkw"@) == Some("unlink-window"@ + seq!['\n']),
        printed_line_text("list-clients"@) == Some("list-clients"@ + seq!['\n']),
        printed_line_text("lsc"@) == Some("list-clients"@ + seq!['\n']),
        printed_line_text("choose-client"@) == Some("list-clients"@ + seq!['\n']),
        printed_line_text("choose-buffer"@) == Some("choose-buffer"@ + seq!['\n']),
        printed_line_text("chooseb"@) == Some("choose-buffer"@ + seq!['\n']),
        printed_line_text("server-info"@) == Some("server-info"@ + seq!['\n']),
        printed_line_text("info"@) == Some("server-info"@ + seq!['\n']),
        printed_line_text("show-messages"@) == Some("show-messages"@ + seq!['\n']),
        printed_line_text("showmsgs"@) == Some("show-messages"@ + seq!['\n']),
{
    lemma_words_0();
    lemma_words_1();
    lemma_words_2();
    lemma_words_3();
    lemma_words_4();
    lemma_lines();
    assert("kill-pane\n"@ =~= "kill-pane"@ + seq!['\n']);
    assert("last-window\n"@ =~= "last-window"@ + seq!['\n']);
    assert("last-pane\n"@ =~= "last-pane"@ + seq!['\n']);
    assert("next-window\n"@ =~= "next-window"@ + seq!['\n']);
    assert("previous-window\n"@ =~= "previous-window"@ + seq!['\n']);
    assert("display-panes\n"@ =~= "display-panes"@ + seq!['\n']);
    assert("zoom-pane\n"@ =~= "zoom-pane"@ + seq!['\n']);
    assert("clock-mode\n"@ =~= "clock-mode"@ + seq!['\n']);
    assert("next-layout\n"@ =~= "next-layout"@ + seq!['\n']);
    assert("previous-layout\n"@ =~= "previous-layout"@ + seq!['\n']);
    assert("choose-tree\n"@ =~= "choose-tree"@ + seq!['\n']);
    assert("choose-window\n"@ =~= "choose-window"@ + seq!['\n']);
    assert("choose-session\n"@ =~= "choose-session"@ + seq!['\n']);
    assert("send-prefix\n"@ =~= "send-prefix"@ + seq!['\n']);
    assert("customize-mode\n"@ =~= "customize-mode"@ + seq!['\n']);
    assert("respawn-window\n"@ =~= "respawn-window"@ + seq!['\n']);
    assert("unlink-window\n"@ =~= "unlink-window"@ + seq!['\n']);
    assert("list-clients\n"@ =~= "list-clients"@ + seq!['\n']);
    assert("choose-buffer\n"@ =~= "choose-buffer"@ + seq!['\n']);
    assert("server-info\n"@ =~= "server-info"@ + seq!['\n']);
    assert("show-messages\n"@ =~= "show-messages"@ + seq!['\n']);
}

/// Commands that are carried out here, or have a line of their own, are known by their names: those for
/// sessions, windows and keys.
pub proof fn commands_of_their_own_are_known()
    ensures
        kind_named("-h"@) == Kind::Help,
        kind_named("--help"@) == Kind::Help,
        kind_named("help"@) == Kind::Help,
        kind_named("-V"@) == Kind::Version,
        kind_named("-v"@) == Kind::Version,
        kind_named("--version"@) == Kind::Version,
        kind_named("version"@) == Kind::Version,
        kind_named("list-commands"@) == Kind::ListCommands,
        kind_named("lscm"@) == Kind::ListCommands,
        kind_named("_render-preview"@) == Kind::RenderPreview,
        kind_named("kill-server"@) == Kind::KillServer,
        kind_named("ls"@) == Kind::ListSessions,
        kind_named("list-sessions"@) == Kind::ListSessions,
        kind_named("a"@) == Kind::Attach,
        kind_named("at"@) == Kind::Attach,
        kind_named("attach"@) == Kind::Attach,
        kind_named("attach-session"@) == Kind::Attach,
        kind_named("server"@) == Kind::Server,
        kind_named("new-session"@) == Kind::NewSession,
        kind_named("new"@) == Kind::NewSession,
        kind_named("new-window"@) == Kind::NewWindow,
        kind_named("neww"@) == Kind::NewWindow,
        kind_named("split-window"@) == Kind::SplitWindow,
        kind_named("splitw"@) == Kind::SplitWindow,
        kind_named("send-keys"@) == Kind::SendKeys,
        kind_named("send"@) == Kind::SendKeys,
        kind_named("send-key"@) == Kind::SendKeys,
        kind_named("send-paste"@) == Kind::SendPaste,
        kind_named("detach-client"@) == Kind::DetachClient,
        kind_named("detach"@) == Kind::DetachClient,
        kind_named("kill-session"@) == Kind::KillSession,
        kind_named("kill-ses"@) == Kind::KillSession,
        kind_named("has-session"@) == Kind::HasSession,
        kind_named("has"@) == Kind::HasSession,
        kind_named("rename-session"@) == Kind::RenameSession,
        kind_named("rename"@) == Kind::RenameSession,
        kind_named("set-buffer"@) == Kind::SetBuffer,
        kind_named("setb"@) == Kind::SetBuffer,
        kind_named("list-buffers"@) == Kind::ListBuffers,
        kind_named("lsb"@) == Kind::ListBuffers,
        kind_named("show-buffer"@) == Kind::ShowBuffer,
        kind_named("showb"@) == Kind::ShowBuffer,
        kind_named("delete-buffer"@) == Kind::DeleteBuffer,
        kind_named("deleteb"@) == Kind::DeleteBuffer,
        kind_named("display-message"@) == Kind::DisplayMessage,
        kind_named("display"@) == Kind::DisplayMessage,
        kind_named("run-shell"@) == Kind::RunShell,
        kind_named("run"@) == Kind::RunShell,
        kind_named("join-pane"@) == Kind::JoinPane,
        kind_named("joinp"@) == Kind::JoinPane,
{
    lemma_words_0();
    lemma_words_1();
    lemma_words_2();
    lemma_words_3();
    lemma_words_4();
}

/// The other commands with a line of their own are known by their names.
pub proof fn other_commands_of_their_own_are_known()
    ensures
        kind_named("move-pane"@) == Kind::JoinPane,
        kind_named("movep"@) == Kind::JoinPane,
        kind_named("rename-window"@) == Kind::RenameWindow,
        kind_named("renamew"@) == Kind::RenameWindow,
        kind_named("source-file"@) == Kind::SourceFile,
        kind_named("source"@) == Kind::SourceFile,
        kind_named("bind-key"@) == Kind::Bind,
        kind_named("bind"@) == Kind::Bind,
        kind_named("unbind-key"@) == Kind::Bind,
        kind_named("unbind"@) == Kind::Bind,
        kind_named("set-option"@) == Kind::SetOption,
        kind_named("set"@) == Kind::SetOption,
        kind_named("set-window-option"@) == Kind::SetOption,
        kind_named("setw"@) == Kind::SetOption,
        kind_named("show-options"@) == Kind::ShowOptions,
        kind_named("show"@) == Kind::ShowOptions,
        kind_named("show-window-options"@) == Kind::ShowOptions,
        kind_named("showw"@) == Kind::ShowOptions,
        kind_named("show-hooks"@) == Kind::ShowOptions,
        kind_named("if-shell"@) == Kind::IfShell,
        kind_named("if"@) == Kind::IfShell,
        kind_named("wait-for"@) == Kind::WaitFor,
        kind_named("wait"@) == Kind::WaitFor,
        kind_named("select-layout"@) == Kind::SelectLayout,
        kind_named("selectl"@) == Kind::SelectLayout,
        kind_named("load-buffer"@) == Kind::LoadBuffer,
        kind_named("loadb"@) == Kind::LoadBuffer,
        kind_named("save-buffer"@) == Kind::SaveBuffer,
        kind_named("saveb"@) == Kind::SaveBuffer,
        kind_named("find-window"@) == Kind::FindWindow,
        kind_named("findw"@) == Kind::FindWindow,
        kind_named("set-hook"@) == Kind::Whole,
        kind_named("link-window"@) == Kind::Whole,
        kind_named("linkw"@) == Kind::Whole,
        kind_named("display-menu"@) == Kind::Quoted,
        kind_named("menu"@) == Kind::Quoted,
        kind_named("display-popup"@) == Kind::Quoted,
        kind_named("popup"@) == Kind::Quoted,
        kind_named("confirm-before"@) == Kind::Quoted,
        kind_named("confirm"@) == Kind::Quoted,
        kind_named("start-server"@) == Kind::StartServer,
        kind_named("start"@) == Kind::StartServer,
        kind_named("warmup"@) == Kind::StartServer,
        kind_named("suspend-client"@) == Kind::Nothing,
        kind_named("suspendc"@) == Kind::Nothing,
        kind_named("lock-client"@) == Kind::Nothing,
        kind_named("lockc"@) == Kind::Nothing,
        kind_named("lock-server"@) == Kind::Nothing,
        kind_named("lock"@) == Kind::Nothing,
        kind_named("lock-session"@) == Kind::Nothing,
        kind_named("locks"@) == Kind::Nothing,
{
    lemma_words_0();
    lemma_words_1();
    lemma_words_2();
    lemma_words_3();
    lemma_words_4();
}

/// A command that is passed on is known as that.
#[verifier::spinoff_prover]
#[verifier::rlimit(80)]
pub proof fn forwarded_commands_are_known(w: Seq<char>)
    requires
        named(w) is Some,
    ensures
        kind_named(w) == Kind::Forward(named(w)->0),
{
    lemma_words_0();
    lemma_words_1();
    lemma_words_2();
    lemma_words_3();
    lemma_words_4();
}

/// A command with a fixed line is known as that, and no word at all starts a session.
#[verifier::spinoff_prover]
#[verifier::rlimit(80)]
pub proof fn fixed_commands_are_known(w: Seq<char>)
    ensures
        fixed_line_text(w) is Some ==> kind_named(w) == Kind::Fixed,
        printed_line_text(w) is Some ==> kind_named(w) == Kind::FixedPrinted,
        kind_named(Seq::empty()) == Kind::Default,
{
    lemma_words_0();
    lemma_words_1();
    lemma_words_2();
    lemma_words_3();
    lemma_words_4();
}

/// A word that names no command is unknown, and one for which a line is fixed sends that line: the
/// kinds do not contradict the lines.
pub proof fn kinds_agree_with_the_lines(w: Seq<char>)
    ensures
        kind_named(w) == Kind::Fixed ==> fixed_line_text(w) is Some,
        kind_named(w) == Kind::FixedPrinted ==> printed_line_text(w) is Some,
        (kind_named(w) matches Kind::Forward(c) ==> named(w) == Some(c)),
        kind_named(w) == Kind::Unknown ==> w.len() > 0 && named(w) is None && fixed_line_text(w) is None
            && printed_line_text(w) is None,
        fixed_line_text(w) is Some ==> printed_line_text(w) is None && named(w) is None,
        printed_line_text(w) is Some ==> named(w) is None,
{
    lemma_words_0();
    lemma_words_1();
    lemma_words_2();
    lemma_words_3();
    lemma_words_4();
}

} // verus!
