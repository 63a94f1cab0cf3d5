//! What holds of the commands that are passed on to the server.

use vstd::prelude::*;
use crate::cli::forward::{
    bare_text, consuming_text, forwarded, name_text, named, piece, pieces, prints, quoted_text,
    skipped_text, takes_format, valued_text, Command,
};
use crate::cli::word_laws::{flags_are_words, words_are_read};
use crate::cli::words::{in_quotes, is_flag_of, tokens, unquoted, TokenView};
use crate::text::signed_number;

verus! {

proof fn lemma_names()
    ensures
        "break-pane"@.len() == 10 && "break-pane"@[0] == 'b' && "break-pane"@[1] == 'r' && "break-pane"@[2] == 'e' && "break-pane"@[3] == 'a' && "break-pane"@[4] == 'k' && "break-pane"@[5] == '-' && "break-pane"@[6] == 'p' && "break-pane"@[7] == 'a' && "break-pane"@[8] == 'n' && "break-pane"@[9] == 'e',
        "breakp"@.len() == 6 && "breakp"@[0] == 'b' && "breakp"@[1] == 'r' && "breakp"@[2] == 'e' && "breakp"@[3] == 'a' && "breakp"@[4] == 'k' && "breakp"@[5] == 'p',
        "capture-pane"@.len() == 12 && "capture-pane"@[0] == 'c' && "capture-pane"@[1] == 'a' && "capture-pane"@[2] == 'p' && "capture-pane"@[3] == 't' && "capture-pane"@[4] == 'u' && "capture-pane"@[5] == 'r' && "capture-pane"@[6] == 'e' && "capture-pane"@[7] == '-' && "capture-pane"@[8] == 'p' && "capture-pane"@[9] == 'a' && "capture-pane"@[10] == 'n' && "capture-pane"@[11] == 'e',
        "capturep"@.len() == 8 && "capturep"@[0] == 'c' && "capturep"@[1] == 'a' && "capturep"@[2] == 'p' && "capturep"@[3] == 't' && "capturep"@[4] == 'u' && "capturep"@[5] == 'r' && "capturep"@[6] == 'e' && "capturep"@[7] == 'p',
        "clear-history"@.len() == 13 && "clear-history"@[0] == 'c' && "clear-history"@[1] == 'l' && "clear-history"@[2] == 'e' && "clear-history"@[3] == 'a' && "clear-history"@[4] == 'r' && "clear-history"@[5] == '-' && "clear-history"@[6] == 'h' && "clear-history"@[7] == 'i' && "clear-history"@[8] == 's' && "clear-history"@[9] == 't' && "clear-history"@[10] == 'o' && "clear-history"@[11] == 'r' && "clear-history"@[12] == 'y',
        "clearhist"@.len() == 9 && "clearhist"@[0] == 'c' && "clearhist"@[1] == 'l' && "clearhist"@[2] == 'e' && "clearhist"@[3] == 'a' && "clearhist"@[4] == 'r' && "clearhist"@[5] == 'h' && "clearhist"@[6] == 'i' && "clearhist"@[7] == 's' && "clearhist"@[8] == 't',
        "command-prompt"@.len() == 14 && "command-prompt"@[0] == 'c' && "command-prompt"@[1] == 'o' && "command-prompt"@[2] == 'm' && "command-prompt"@[3] == 'm' && "command-prompt"@[4] == 'a' && "command-prompt"@[5] == 'n' && "command-prompt"@[6] == 'd' && "command-prompt"@[7] == '-' && "command-prompt"@[8] == 'p' && "command-prompt"@[9] == 'r' && "command-prompt"@[10] == 'o' && "command-prompt"@[11] == 'm' && "command-prompt"@[12] == 'p' && "command-prompt"@[13] == 't',
        "copy-mode"@.len() == 9 && "copy-mode"@[0] == 'c' && "copy-mode"@[1] == 'o' && "copy-mode"@[2] == 'p' && "copy-mode"@[3] == 'y' && "copy-mode"@[4] == '-' && "copy-mode"@[5] == 'm' && "copy-mode"@[6] == 'o' && "copy-mode"@[7] == 'd' && "copy-mode"@[8] == 'e',
        "kill-window"@.len() == 11 && "kill-window"@[0] == 'k' && "kill-window"@[1] == 'i' && "kill-window"@[2] == 'l' && "kill-window"@[3] == 'l' && "kill-window"@[4] == '-' && "kill-window"@[5] == 'w' && "kill-window"@[6] == 'i' && "kill-window"@[7] == 'n' && "kill-window"@[8] == 'd' && "kill-window"@[9] == 'o' && "kill-window"@[10] == 'w',
        "killw"@.len() == 5 && "killw"@[0] == 'k' && "killw"@[1] == 'i' && "killw"@[2] == 'l' && "killw"@[3] == 'l' && "killw"@[4] == 'w',
        "list-keys"@.len() == 9 && "list-keys"@[0] == 'l' && "list-keys"@[1] == 'i' && "list-keys"@[2] == 's' && "list-keys"@[3] == 't' && "list-keys"@[4] == '-' && "list-keys"@[5] == 'k' && "list-keys"@[6] == 'e' && "list-keys"@[7] == 'y' && "list-keys"@[8] == 's',
        "list-panes"@.len() == 10 && "list-panes"@[0] == 'l' && "list-panes"@[1] == 'i' && "list-panes"@[2] == 's' && "list-panes"@[3] == 't' && "list-panes"@[4] == '-' && "list-panes"@[5] == 'p' && "list-panes"@[6] == 'a' && "list-panes"@[7] == 'n' && "list-panes"@[8] == 'e' && "list-panes"@[9] == 's',
        "list-windows"@.len() == 12 && "list-windows"@[0] == 'l' && "list-windows"@[1] == 'i' && "list-windows"@[2] == 's' && "list-windows"@[3] == 't' && "list-windows"@[4] == '-' && "list-windows"@[5] == 'w' && "list-windows"@[6] == 'i' && "list-windows"@[7] == 'n' && "list-windows"@[8] == 'd' && "list-windows"@[9] == 'o' && "list-windows"@[10] == 'w' && "list-windows"@[11] == 's',
        "lsk"@.len() == 3 && "lsk"@[0] == 'l' && "lsk"@[1] == 's' && "lsk"@[2] == 'k',
        "lsp"@.len() == 3 && "lsp"@[0] == 'l' && "lsp"@[1] == 's' && "lsp"@[2] == 'p',
        "lsw"@.len() == 3 && "lsw"@[0] == 'l' && "lsw"@[1] == 's' && "lsw"@[2] == 'w',
        "move-window"@.len() == 11 && "move-window"@[0] == 'm' && "move-window"@[1] == 'o' && "move-window"@[2] == 'v' && "move-window"@[3] == 'e' && "move-window"@[4] == '-' && "move-window"@[5] == 'w' && "move-window"@[6] == 'i' && "move-window"@[7] == 'n' && "move-window"@[8] == 'd' && "move-window"@[9] == 'o' && "move-window"@[10] == 'w',
        "movew"@.len() == 5 && "movew"@[0] == 'm' && "movew"@[1] == 'o' && "movew"@[2] == 'v' && "movew"@[3] == 'e' && "movew"@[4] == 'w',
        "paste-buffer"@.len() == 12 && "paste-buffer"@[0] == 'p' && "paste-buffer"@[1] == 'a' && "paste-buffer"@[2] == 's' && "paste-buffer"@[3] == 't' && "paste-buffer"@[4] == 'e' && "paste-buffer"@[5] == '-' && "paste-buffer"@[6] == 'b' && "paste-buffer"@[7] == 'u' && "paste-buffer"@[8] == 'f' && "paste-buffer"@[9] == 'f' && "paste-buffer"@[10] == 'e' && "paste-buffer"@[11] == 'r',
        "pasteb"@.len() == 6 && "pasteb"@[0] == 'p' && "pasteb"@[1] == 'a' && "pasteb"@[2] == 's' && "pasteb"@[3] == 't' && "pasteb"@[4] == 'e' && "pasteb"@[5] == 'b',
        "pipe-pane"@.len() == 9 && "pipe-pane"@[0] == 'p' && "pipe-pane"@[1] == 'i' && "pipe-pane"@[2] == 'p' && "pipe-pane"@[3] == 'e' && "pipe-pane"@[4] == '-' && "pipe-pane"@[5] == 'p' && "pipe-pane"@[6] == 'a' && "pipe-pane"@[7] == 'n' && "pipe-pane"@[8] == 'e',
        "pipep"@.len() == 5 && "pipep"@[0] == 'p' && "pipep"@[1] == 'i' && "pipep"@[2] == 'p' && "pipep"@[3] == 'e' && "pipep"@[4] == 'p',
        "refresh"@.len() == 7 && "refresh"@[0] == 'r' && "refresh"@[1] == 'e' && "refresh"@[2] == 'f' && "refresh"@[3] == 'r' && "refresh"@[4] == 'e' && "refresh"@[5] == 's' && "refresh"@[6] == 'h',
        "refresh-client"@.len() == 14 && "refresh-client"@[0] == 'r' && "refresh-client"@[1] == 'e' && "refresh-client"@[2] == 'f' && "refresh-client"@[3] == 'r' && "refresh-client"@[4] == 'e' && "refresh-client"@[5] == 's' && "refresh-client"@[6] == 'h' && "refresh-client"@[7] == '-' && "refresh-client"@[8] == 'c' && "refresh-client"@[9] == 'l' && "refresh-client"@[10] == 'i' && "refresh-client"@[11] == 'e' && "refresh-client"@[12] == 'n' && "refresh-client"@[13] == 't',
        "resize-pane"@.len() == 11 && "resize-pane"@[0] == 'r' && "resize-pane"@[1] == 'e' && "resize-pane"@[2] == 's' && "resize-pane"@[3] == 'i' && "resize-pane"@[4] == 'z' && "resize-pane"@[5] == 'e' && "resize-pane"@[6] == '-' && "resize-pane"@[7] == 'p' && "resize-pane"@[8] == 'a' && "resize-pane"@[9] == 'n' && "resize-pane"@[10] == 'e',
        "resize-window"@.len() == 13 && "resize-window"@[0] == 'r' && "resize-window"@[1] == 'e' && "resize-window"@[2] == 's' && "resize-window"@[3] == 'i' && "resize-window"@[4] == 'z' && "resize-window"@[5] == 'e' && "resize-window"@[6] == '-' && "resize-window"@[7] == 'w' && "resize-window"@[8] == 'i' && "resize-window"@[9] == 'n' && "resize-window"@[10] == 'd' && "resize-window"@[11] == 'o' && "resize-window"@[12] == 'w',
        "resizep"@.len() == 7 && "resizep"@[0] == 'r' && "resizep"@[1] == 'e' && "resizep"@[2] == 's' && "resizep"@[3] == 'i' && "resizep"@[4] == 'z' && "resizep"@[5] == 'e' && "resizep"@[6] == 'p',
        "resizew"@.len() == 7 && "resizew"@[0] == 'r' && "resizew"@[1] == 'e' && "resizew"@[2] == 's' && "resizew"@[3] == 'i' && "resizew"@[4] == 'z' && "resizew"@[5] == 'e' && "resizew"@[6] == 'w',
        "resp"@.len() == 4 && "resp"@[0] == 'r' && "resp"@[1] == 'e' && "resp"@[2] == 's' && "resp"@[3] == 'p',
        "respawn-pane"@.len() == 12 && "respawn-pane"@[0] == 'r' && "respawn-pane"@[1] == 'e' && "respawn-pane"@[2] == 's' && "respawn-pane"@[3] == 'p' && "respawn-pane"@[4] == 'a' && "respawn-pane"@[5] == 'w' && "respawn-pane"@[6] == 'n' && "respawn-pane"@[7] == '-' && "respawn-pane"@[8] == 'p' && "respawn-pane"@[9] == 'a' && "respawn-pane"@[10] == 'n' && "respawn-pane"@[11] == 'e',
        "respawnp"@.len() == 8 && "respawnp"@[0] == 'r' && "respawnp"@[1] == 'e' && "respawnp"@[2] == 's' && "respawnp"@[3] == 'p' && "respawnp"@[4] == 'a' && "respawnp"@[5] == 'w' && "respawnp"@[6] == 'n' && "respawnp"@[7] == 'p',
        "rotate-window"@.len() == 13 && "rotate-window"@[0] == 'r' && "rotate-window"@[1] == 'o' && "rotate-window"@[2] == 't' && "rotate-window"@[3] == 'a' && "rotate-window"@[4] == 't' && "rotate-window"@[5] == 'e' && "rotate-window"@[6] == '-' && "rotate-window"@[7] == 'w' && "rotate-window"@[8] == 'i' && "rotate-window"@[9] == 'n' && "rotate-window"@[10] == 'd' && "rotate-window"@[11] == 'o' && "rotate-window"@[12] == 'w',
        "rotatew"@.len() == 7 && "rotatew"@[0] == 'r' && "rotatew"@[1] == 'o' && "rotatew"@[2] == 't' && "rotatew"@[3] == 'a' && "rotatew"@[4] == 't' && "rotatew"@[5] == 'e' && "rotatew"@[6] == 'w',
        "select-pane"@.len() == 11 && "select-pane"@[0] == 's' && "select-pane"@[1] == 'e' && "select-pane"@[2] == 'l' && "select-pane"@[3] == 'e' && "select-pane"@[4] == 'c' && "select-pane"@[5] == 't' && "select-pane"@[6] == '-' && "select-pane"@[7] == 'p' && "select-pane"@[8] == 'a' && "select-pane"@[9] == 'n' && "select-pane"@[10] == 'e',
        "select-window"@.len() == 13 && "select-window"@[0] == 's' && "select-window"@[1] == 'e' && "select-window"@[2] == 'l' && "select-window"@[3] == 'e' && "select-window"@[4] == 'c' && "select-window"@[5] == 't' && "select-window"@[6] == '-' && "select-window"@[7] == 'w' && "select-window"@[8] == 'i' && "select-window"@[9] == 'n' && "select-window"@[10] == 'd' && "select-window"@[11] == 'o' && "select-window"@[12] == 'w',
        "selectp"@.len() == 7 && "selectp"@[0] == 's' && "selectp"@[1] == 'e' && "selectp"@[2] == 'l' && "selectp"@[3] == 'e' && "selectp"@[4] == 'c' && "selectp"@[5] == 't' && "selectp"@[6] == 'p',
        "selectw"@.len() == 7 && "selectw"@[0] == 's' && "selectw"@[1] == 'e' && "selectw"@[2] == 'l' && "selectw"@[3] == 'e' && "selectw"@[4] == 'c' && "selectw"@[5] == 't' && "selectw"@[6] == 'w',
        "set-environment"@.len() == 15 && "set-environment"@[0] == 's' && "set-environment"@[1] == 'e' && "set-environment"@[2] == 't' && "set-environment"@[3] == '-' && "set-environment"@[4] == 'e' && "set-environment"@[5] == 'n' && "set-environment"@[6] == 'v' && "set-environment"@[7] == 'i' && "set-environment"@[8] == 'r' && "set-environment"@[9] == 'o' && "set-environment"@[10] == 'n' && "set-environment"@[11] == 'm' && "set-environment"@[12] == 'e' && "set-environment"@[13] == 'n' && "set-environment"@[14] == 't',
        "setenv"@.len() == 6 && "setenv"@[0] == 's' && "setenv"@[1] == 'e' && "setenv"@[2] == 't' && "setenv"@[3] == 'e' && "setenv"@[4] == 'n' && "setenv"@[5] == 'v',
        "show-environment"@.len() == 16 && "show-environment"@[0] == 's' && "show-environment"@[1] == 'h' && "show-environment"@[2] == 'o' && "show-environment"@[3] == 'w' && "show-environment"@[4] == '-' && "show-environment"@[5] == 'e' && "show-environment"@[6] == 'n' && "show-environment"@[7] == 'v' && "show-environment"@[8] == 'i' && "show-environment"@[9] == 'r' && "show-environment"@[10] == 'o' && "show-environment"@[11] == 'n' && "show-environment"@[12] == 'm' && "show-environment"@[13] == 'e' && "show-environment"@[14] == 'n' && "show-environment"@[15] == 't',
        "showenv"@.len() == 7 && "showenv"@[0] == 's' && "showenv"@[1] == 'h' && "showenv"@[2] == 'o' && "showenv"@[3] == 'w' && "showenv"@[4] == 'e' && "showenv"@[5] == 'n' && "showenv"@[6] == 'v',
        "swap-pane"@.len() == 9 && "swap-pane"@[0] == 's' && "swap-pane"@[1] == 'w' && "swap-pane"@[2] == 'a' && "swap-pane"@[3] == 'p' && "swap-pane"@[4] == '-' && "swap-pane"@[5] == 'p' && "swap-pane"@[6] == 'a' && "swap-pane"@[7] == 'n' && "swap-pane"@[8] == 'e',
        "swap-window"@.len() == 11 && "swap-window"@[0] == 's' && "swap-window"@[1] == 'w' && "swap-window"@[2] == 'a' && "swap-window"@[3] == 'p' && "swap-window"@[4] == '-' && "swap-window"@[5] == 'w' && "swap-window"@[6] == 'i' && "swap-window"@[7] == 'n' && "swap-window"@[8] == 'd' && "swap-window"@[9] == 'o' && "swap-window"@[10] == 'w',
        "swapp"@.len() == 5 && "swapp"@[0] == 's' && "swapp"@[1] == 'w' && "swapp"@[2] == 'a' && "swapp"@[3] == 'p' && "swapp"@[4] == 'p',
        "swapw"@.len() == 5 && "swapw"@[0] == 's' && "swapw"@[1] == 'w' && "swapw"@[2] == 'a' && "swapw"@[3] == 'p' && "swapw"@[4] == 'w',
        "switch-client"@.len() == 13 && "switch-client"@[0] == 's' && "switch-client"@[1] == 'w' && "switch-client"@[2] == 'i' && "switch-client"@[3] == 't' && "switch-client"@[4] == 'c' && "switch-client"@[5] == 'h' && "switch-client"@[6] == '-' && "switch-client"@[7] == 'c' && "switch-client"@[8] == 'l' && "switch-client"@[9] == 'i' && "switch-client"@[10] == 'e' && "switch-client"@[11] == 'n' && "switch-client"@[12] == 't',
        "switchc"@.len() == 7 && "switchc"@[0] == 's' && "switchc"@[1] == 'w' && "switchc"@[2] == 'i' && "switchc"@[3] == 't' && "switchc"@[4] == 'c' && "switchc"@[5] == 'h' && "switchc"@[6] == 'c',
{
    reveal_strlit("break-pane");
    reveal_strlit("breakp");
    reveal_strlit("capture-pane");
    reveal_strlit("capturep");
    reveal_strlit("clear-history");
    reveal_strlit("clearhist");
    reveal_strlit("command-prompt");
    reveal_strlit("copy-mode");
    reveal_strlit("kill-window");
    reveal_strlit("killw");
    reveal_strlit("list-keys");
    reveal_strlit("list-panes");
    reveal_strlit("list-windows");
    reveal_strlit("lsk");
    reveal_strlit("lsp");
    reveal_strlit("lsw");
    reveal_strlit("move-window");
    reveal_strlit("movew");
    reveal_strlit("paste-buffer");
    reveal_strlit("pasteb");
    reveal_strlit("pipe-pane");
    reveal_strlit("pipep");
    reveal_strlit("refresh");
    reveal_strlit("refresh-client");
    reveal_strlit("resize-pane");
    reveal_strlit("resize-window");
    reveal_strlit("resizep");
    reveal_strlit("resizew");
    reveal_strlit("resp");
    reveal_strlit("respawn-pane");
    reveal_strlit("respawnp");
    reveal_strlit("rotate-window");
    reveal_strlit("rotatew");
    reveal_strlit("select-pane");
    reveal_strlit("select-window");
    reveal_strlit("selectp");
    reveal_strlit("selectw");
    reveal_strlit("set-environment");
    reveal_strlit("setenv");
    reveal_strlit("show-environment");
    reveal_strlit("showenv");
    reveal_strlit("swap-pane");
    reveal_strlit("swap-window");
    reveal_strlit("swapp");
    reveal_strlit("swapw");
    reveal_strlit("switch-client");
    reveal_strlit("switchc");
}

proof fn lemma_letters()
    ensures
        ""@.len() == 0,
        "1NW"@.len() == 3 && "1NW"@[0] == '1' && "1NW"@[1] == 'N' && "1NW"@[2] == 'W',
        "ADU"@.len() == 3 && "ADU"@[0] == 'A' && "ADU"@[1] == 'D' && "ADU"@[2] == 'U',
        "Ct"@.len() == 2 && "Ct"@[0] == 'C' && "Ct"@[1] == 't',
        "DU"@.len() == 2 && "DU"@[0] == 'D' && "DU"@[1] == 'U',
        "DULRZ"@.len() == 5 && "DULRZ"@[0] == 'D' && "DULRZ"@[1] == 'U' && "DULRZ"@[2] == 'L' && "DULRZ"@[3] == 'R' && "DULRZ"@[4] == 'Z',
        "DULRlZmMed"@.len() == 10 && "DULRlZmMed"@[0] == 'D' && "DULRlZmMed"@[1] == 'U' && "DULRlZmMed"@[2] == 'L' && "DULRlZmMed"@[3] == 'R' && "DULRlZmMed"@[4] == 'l' && "DULRlZmMed"@[5] == 'Z' && "DULRlZmMed"@[6] == 'm' && "DULRlZmMed"@[7] == 'M' && "DULRlZmMed"@[8] == 'e' && "DULRlZmMed"@[9] == 'd',
        "DUd"@.len() == 3 && "DUd"@[0] == 'D' && "DUd"@[1] == 'U' && "DUd"@[2] == 'd',
        "H"@.len() == 1 && "H"@[0] == 'H',
        "IOo"@.len() == 3 && "IOo"@[0] == 'I' && "IOo"@[1] == 'O' && "IOo"@[2] == 'o',
        "IpTt"@.len() == 4 && "IpTt"@[0] == 'I' && "IpTt"@[1] == 'p' && "IpTt"@[2] == 'T' && "IpTt"@[3] == 't',
        "Sl"@.len() == 2 && "Sl"@[0] == 'S' && "Sl"@[1] == 'l',
        "T"@.len() == 1 && "T"@[0] == 'T',
        "TP"@.len() == 2 && "TP"@[0] == 'T' && "TP"@[1] == 'P',
        "Tt"@.len() == 2 && "Tt"@[0] == 'T' && "Tt"@[1] == 't',
        "a"@.len() == 1 && "a"@[0] == 'a',
        "aJ"@.len() == 2 && "aJ"@[0] == 'a' && "aJ"@[1] == 'J',
        "abrdk"@.len() == 5 && "abrdk"@[0] == 'a' && "abrdk"@[1] == 'b' && "abrdk"@[2] == 'r' && "abrdk"@[3] == 'd' && "abrdk"@[4] == 'k',
        "as"@.len() == 2 && "as"@[0] == 'a' && "as"@[1] == 's',
        "ct"@.len() == 2 && "ct"@[0] == 'c' && "ct"@[1] == 't',
        "d"@.len() == 1 && "d"@[0] == 'd',
        "dp"@.len() == 2 && "dp"@[0] == 'd' && "dp"@[1] == 'p',
        "gruh"@.len() == 4 && "gruh"@[0] == 'g' && "gruh"@[1] == 'r' && "gruh"@[2] == 'u' && "gruh"@[3] == 'h',
        "gsh"@.len() == 3 && "gsh"@[0] == 'g' && "gsh"@[1] == 's' && "gsh"@[2] == 'h',
        "k"@.len() == 1 && "k"@[0] == 'k',
        "lnp"@.len() == 3 && "lnp"@[0] == 'l' && "lnp"@[1] == 'n' && "lnp"@[2] == 'p',
        "lnpr"@.len() == 4 && "lnpr"@[0] == 'l' && "lnpr"@[1] == 'n' && "lnpr"@[2] == 'p' && "lnpr"@[3] == 'r',
        "peJ"@.len() == 3 && "peJ"@[0] == 'p' && "peJ"@[1] == 'e' && "peJ"@[2] == 'J',
        "st"@.len() == 2 && "st"@[0] == 's' && "st"@[1] == 't',
        "t"@.len() == 1 && "t"@[0] == 't',
        "tF"@.len() == 2 && "tF"@[0] == 't' && "tF"@[1] == 'F',
        "tSEb"@.len() == 4 && "tSEb"@[0] == 't' && "tSEb"@[1] == 'S' && "tSEb"@[2] == 'E' && "tSEb"@[3] == 'b',
        "tTP"@.len() == 3 && "tTP"@[0] == 't' && "tTP"@[1] == 'T' && "tTP"@[2] == 'P',
        "tb"@.len() == 2 && "tb"@[0] == 't' && "tb"@[1] == 'b',
        "txy"@.len() == 3 && "txy"@[0] == 't' && "txy"@[1] == 'x' && "txy"@[2] == 'y',
        "udeHq"@.len() == 5 && "udeHq"@[0] == 'u' && "udeHq"@[1] == 'd' && "udeHq"@[2] == 'e' && "udeHq"@[3] == 'H' && "udeHq"@[4] == 'q',
        "xy"@.len() == 2 && "xy"@[0] == 'x' && "xy"@[1] == 'y',
        "xyt"@.len() == 3 && "xyt"@[0] == 'x' && "xyt"@[1] == 'y' && "xyt"@[2] == 't',
{
    reveal_strlit("");
    reveal_strlit("1NW");
    reveal_strlit("ADU");
    reveal_strlit("Ct");
    reveal_strlit("DU");
    reveal_strlit("DULRZ");
    reveal_strlit("DULRlZmMed");
    reveal_strlit("DUd");
    reveal_strlit("H");
    reveal_strlit("IOo");
    reveal_strlit("IpTt");
    reveal_strlit("Sl");
    reveal_strlit("T");
    reveal_strlit("TP");
    reveal_strlit("Tt");
    reveal_strlit("a");
    reveal_strlit("aJ");
    reveal_strlit("abrdk");
    reveal_strlit("as");
    reveal_strlit("ct");
    reveal_strlit("d");
    reveal_strlit("dp");
    reveal_strlit("gruh");
    reveal_strlit("gsh");
    reveal_strlit("k");
    reveal_strlit("lnp");
    reveal_strlit("lnpr");
    reveal_strlit("peJ");
    reveal_strlit("st");
    reveal_strlit("t");
    reveal_strlit("tF");
    reveal_strlit("tSEb");
    reveal_strlit("tTP");
    reveal_strlit("tb");
    reveal_strlit("txy");
    reveal_strlit("udeHq");
    reveal_strlit("xy");
    reveal_strlit("xyt");
}

/// Whether a word of a capture is a flag that takes the next word for its value: the pane, the first
/// and the last line, and the buffer.
pub open spec fn capture_takes_value(w: Seq<char>) -> bool {
    w.len() == 2 && w[0] == '-' && (w[1] == 't' || w[1] == 'S' || w[1] == 'E' || w[1] == 'b')
}

/// What a pane shows is printed if and only if `-p` is among the words and is no flag's value.
pub proof fn capture_is_printed_if_asked(words: Seq<Seq<char>>)
    ensures
        (forall|j: int| 1 <= j < words.len() ==> #[trigger] words[j] != seq!['-', 'p']) ==> !prints(
            Command::CapturePane,
            words,
        ),
        (exists|j: int|
            1 <= j < words.len() && #[trigger] words[j] == seq!['-', 'p'] && (j == 1
                || !capture_takes_value(words[j - 1]))) ==> prints(Command::CapturePane, words),
{
    lemma_letters();
    reveal_strlit("-p");
    assert("-p"@ =~= seq!['-', 'p']);
    let t = tokens("tSEb"@, words, 1);
    if prints(Command::CapturePane, words) {
        flags_are_words("tSEb"@, words, 1, "-p"@);
    }
    if exists|j: int|
        1 <= j < words.len() && #[trigger] words[j] == seq!['-', 'p'] && (j == 1 || !capture_takes_value(
            words[j - 1],
        )) {
        let j = choose|j: int|
            1 <= j < words.len() && #[trigger] words[j] == seq!['-', 'p'] && (j == 1
                || !capture_takes_value(words[j - 1]));
        if j > 1 && is_flag_of(words[j - 1], "tSEb"@) {
            let c = words[j - 1][1];
            let k = choose|k: int| 0 <= k < "tSEb"@.len() && "tSEb"@[k] == c;
            assert(k == 0 || k == 1 || k == 2 || k == 3);
        }
        words_are_read("tSEb"@, words, 1, j);
    }
}

/// Lists are always printed, and what other commands are answered never is, whatever their words.
pub proof fn lists_are_printed(c: Command, words: Seq<Seq<char>>)
    requires
        c != Command::CapturePane,
    ensures
        prints(c, words) == (c == Command::ListPanes || c == Command::ListWindows || c
            == Command::ShowEnvironment || c == Command::ListKeys),
{
}

/// The name that a command has on the line names that command.
pub proof fn name_on_the_line_names_the_command(c: Command)
    ensures
        named(name_text(c)) == Some(c),
{
    lemma_names();
}

/// A word names one command only: where two words name the same, they are its long name and short
/// ones.
pub proof fn short_names_name_the_same()
    ensures
        named("capturep"@) == named("capture-pane"@),
        named("selectp"@) == named("select-pane"@),
        named("selectw"@) == named("select-window"@),
        named("lsp"@) == named("list-panes"@),
        named("lsw"@) == named("list-windows"@),
        named("killw"@) == named("kill-window"@),
        named("swapp"@) == named("swap-pane"@),
        named("resizep"@) == named("resize-pane"@),
        named("pasteb"@) == named("paste-buffer"@),
        named("respawnp"@) == named("respawn-pane"@),
        named("resp"@) == named("respawn-pane"@),
        named("rotatew"@) == named("rotate-window"@),
        named("breakp"@) == named("break-pane"@),
        named("movew"@) == named("move-window"@),
        named("swapw"@) == named("swap-window"@),
        named("switchc"@) == named("switch-client"@),
        named("setenv"@) == named("set-environment"@),
        named("showenv"@) == named("show-environment"@),
        named("clearhist"@) == named("clear-history"@),
        named("pipep"@) == named("pipe-pane"@),
        named("refresh"@) == named("refresh-client"@),
        named("resizew"@) == named("resize-window"@),
        named("lsk"@) == named("list-keys"@),
{
    lemma_names();
}

/// The long name of a command says what it does.
pub proof fn commands_go_by_their_names()
    ensures
        named("capture-pane"@) == Some(Command::CapturePane),
        named("select-pane"@) == Some(Command::SelectPane),
        named("select-window"@) == Some(Command::SelectWindow),
        named("list-panes"@) == Some(Command::ListPanes),
        named("list-windows"@) == Some(Command::ListWindows),
        named("kill-window"@) == Some(Command::KillWindow),
        named("swap-pane"@) == Some(Command::SwapPane),
        named("resize-pane"@) == Some(Command::ResizePane),
        named("paste-buffer"@) == Some(Command::PasteBuffer),
        named("respawn-pane"@) == Some(Command::RespawnPane),
        named("rotate-window"@) == Some(Command::RotateWindow),
        named("break-pane"@) == Some(Command::BreakPane),
        named("move-window"@) == Some(Command::MoveWindow),
        named("swap-window"@) == Some(Command::SwapWindow),
        named("switch-client"@) == Some(Command::SwitchClient),
        named("copy-mode"@) == Some(Command::CopyMode),
        named("set-environment"@) == Some(Command::SetEnvironment),
        named("show-environment"@) == Some(Command::ShowEnvironment),
        named("clear-history"@) == Some(Command::ClearHistory),
        named("pipe-pane"@) == Some(Command::PipePane),
        named("command-prompt"@) == Some(Command::CommandPrompt),
        named("refresh-client"@) == Some(Command::RefreshClient),
        named("resize-window"@) == Some(Command::ResizeWindow),
        named("list-keys"@) == Some(Command::ListKeys),
{
    lemma_names();
}

/// The line of a command begins with its name, and ends with a line feed.
pub proof fn line_begins_with_the_name(c: Command, words: Seq<Seq<char>>)
    ensures
        forwarded(c, words).len() > name_text(c).len(),
        forwarded(c, words).take(name_text(c).len() as int) == name_text(c),
        forwarded(c, words).last() == '\n',
        words.len() <= 1 ==> forwarded(c, words) == name_text(c) + seq!['\n'],
{
    let f = forwarded(c, words);
    assert(f.take(name_text(c).len() as int) =~= name_text(c));
    if words.len() <= 1 {
        assert(tokens(consuming_text(c), words, 1) =~= Seq::empty());
        assert(f =~= name_text(c) + seq!['\n']);
    }
}

/// What the words add to a line comes in their order, one behind the other.
pub proof fn words_come_in_their_order(c: Command, t: Seq<TokenView>, more: TokenView)
    ensures
        pieces(c, t.push(more)) == pieces(c, t) + piece(c, more),
        pieces(c, Seq::empty()) == Seq::<char>::empty(),
{
    assert(t.push(more).drop_last() =~= t);
}

/// The flags that each command passes on as they are.
pub proof fn flags_that_are_kept(c: Command, ch: char)
    ensures
        bare_text(c).contains(ch) == (match c {
            Command::CapturePane => ch == 'p' || ch == 'e' || ch == 'J',
            Command::SelectPane => ch == 'D' || ch == 'U' || ch == 'L' || ch == 'R' || ch == 'l' || ch == 'Z' || ch == 'm' || ch == 'M' || ch == 'e' || ch == 'd',
            Command::SelectWindow => ch == 'l' || ch == 'n' || ch == 'p',
            Command::ListPanes => ch == 'a' || ch == 's',
            Command::ListWindows => ch == 'a' || ch == 'J',
            Command::KillWindow => ch == 'a',
            Command::SwapPane => ch == 'D' || ch == 'U' || ch == 'd',
            Command::ResizePane => ch == 'D' || ch == 'U' || ch == 'L' || ch == 'R' || ch == 'Z',
            Command::PasteBuffer => ch == 'd' || ch == 'p',
            Command::RespawnPane => ch == 'k',
            Command::RotateWindow => ch == 'D' || ch == 'U',
            Command::BreakPane => ch == 'd',
            Command::MoveWindow => ch == 'a' || ch == 'b' || ch == 'r' || ch == 'd' || ch == 'k',
            Command::SwapWindow => ch == 'd',
            Command::SwitchClient => ch == 'l' || ch == 'n' || ch == 'p' || ch == 'r',
            Command::CopyMode => ch == 'u' || ch == 'd' || ch == 'e' || ch == 'H' || ch == 'q',
            Command::SetEnvironment => ch == 'g' || ch == 'r' || ch == 'u' || ch == 'h',
            Command::ShowEnvironment => ch == 'g' || ch == 's' || ch == 'h',
            Command::ClearHistory => ch == 'H',
            Command::PipePane => ch == 'I' || ch == 'O' || ch == 'o',
            Command::CommandPrompt => ch == '1' || ch == 'N' || ch == 'W',
            Command::RefreshClient => ch == 'S' || ch == 'l',
            Command::ResizeWindow => ch == 'A' || ch == 'D' || ch == 'U',
            Command::ListKeys => false,
        }),
{
    lemma_letters();
    let s = bare_text(c);
    if s.contains(ch) {
        let k = choose|k: int| 0 <= k < s.len() && s[k] == ch;
        assert(s[k] == ch);
    }
    if c == Command::CapturePane {
        assert(s[0] == 'p');
        assert(s[1] == 'e');
        assert(s[2] == 'J');
    }
    if c == Command::SelectPane {
        assert(s[0] == 'D');
        assert(s[1] == 'U');
        assert(s[2] == 'L');
        assert(s[3] == 'R');
        assert(s[4] == 'l');
        assert(s[5] == 'Z');
        assert(s[6] == 'm');
        assert(s[7] == 'M');
        assert(s[8] == 'e');
        assert(s[9] == 'd');
    }
    if c == Command::SelectWindow {
        assert(s[0] == 'l');
        assert(s[1] == 'n');
        assert(s[2] == 'p');
    }
    if c == Command::ListPanes {
        assert(s[0] == 'a');
        assert(s[1] == 's');
    }
    if c == Command::ListWindows {
        assert(s[0] == 'a');
        assert(s[1] == 'J');
    }
    if c == Command::KillWindow {
        assert(s[0] == 'a');
    }
    if c == Command::SwapPane {
        assert(s[0] == 'D');
        assert(s[1] == 'U');
        assert(s[2] == 'd');
    }
    if c == Command::ResizePane {
        assert(s[0] == 'D');
        assert(s[1] == 'U');
        assert(s[2] == 'L');
        assert(s[3] == 'R');
        assert(s[4] == 'Z');
    }
    if c == Command::PasteBuffer {
        assert(s[0] == 'd');
        assert(s[1] == 'p');
    }
    if c == Command::RespawnPane {
        assert(s[0] == 'k');
    }
    if c == Command::RotateWindow {
        assert(s[0] == 'D');
        assert(s[1] == 'U');
    }
    if c == Command::BreakPane {
        assert(s[0] == 'd');
    }
    if c == Command::MoveWindow {
        assert(s[0] == 'a');
        assert(s[1] == 'b');
        assert(s[2] == 'r');
        assert(s[3] == 'd');
        assert(s[4] == 'k');
    }
    if c == Command::SwapWindow {
        assert(s[0] == 'd');
    }
    if c == Command::SwitchClient {
        assert(s[0] == 'l');
        assert(s[1] == 'n');
        assert(s[2] == 'p');
        assert(s[3] == 'r');
    }
    if c == Command::CopyMode {
        assert(s[0] == 'u');
        assert(s[1] == 'd');
        assert(s[2] == 'e');
        assert(s[3] == 'H');
        assert(s[4] == 'q');
    }
    if c == Command::SetEnvironment {
        assert(s[0] == 'g');
        assert(s[1] == 'r');
        assert(s[2] == 'u');
        assert(s[3] == 'h');
    }
    if c == Command::ShowEnvironment {
        assert(s[0] == 'g');
        assert(s[1] == 's');
        assert(s[2] == 'h');
    }
    if c == Command::ClearHistory {
        assert(s[0] == 'H');
    }
    if c == Command::PipePane {
        assert(s[0] == 'I');
        assert(s[1] == 'O');
        assert(s[2] == 'o');
    }
    if c == Command::CommandPrompt {
        assert(s[0] == '1');
        assert(s[1] == 'N');
        assert(s[2] == 'W');
    }
    if c == Command::RefreshClient {
        assert(s[0] == 'S');
        assert(s[1] == 'l');
    }
    if c == Command::ResizeWindow {
        assert(s[0] == 'A');
        assert(s[1] == 'D');
        assert(s[2] == 'U');
    }
}

/// The flags that each command passes on with their value.
pub proof fn flags_that_are_kept_with_their_value(c: Command, ch: char)
    ensures
        valued_text(c).contains(ch) == (match c {
            Command::CapturePane => ch == 't' || ch == 'S' || ch == 'E' || ch == 'b',
            Command::SelectPane => ch == 't',
            Command::SelectWindow => ch == 't',
            Command::ListPanes => ch == 't',
            Command::ListWindows => ch == 't',
            Command::KillWindow => ch == 't',
            Command::SwapPane => ch == 's' || ch == 't',
            Command::ResizePane => ch == 't' || ch == 'x' || ch == 'y',
            Command::PasteBuffer => ch == 't' || ch == 'b',
            Command::RespawnPane => ch == 'c' || ch == 't',
            Command::RotateWindow => ch == 't',
            Command::BreakPane => ch == 't',
            Command::MoveWindow => ch == 's' || ch == 't',
            Command::SwapWindow => ch == 's' || ch == 't',
            Command::SwitchClient => ch == 'c' || ch == 't',
            Command::CopyMode => ch == 't',
            Command::SetEnvironment => ch == 't',
            Command::ShowEnvironment => ch == 't',
            Command::ClearHistory => ch == 't',
            Command::PipePane => ch == 't',
            Command::CommandPrompt => ch == 'I' || ch == 'p' || ch == 'T' || ch == 't',
            Command::RefreshClient => ch == 'C' || ch == 't',
            Command::ResizeWindow => ch == 'x' || ch == 'y',
            Command::ListKeys => ch == 'T',
        }),
{
    lemma_letters();
    let s = valued_text(c);
    if s.contains(ch) {
        let k = choose|k: int| 0 <= k < s.len() && s[k] == ch;
        assert(s[k] == ch);
    }
    if c == Command::CapturePane {
        assert(s[0] == 't');
        assert(s[1] == 'S');
        assert(s[2] == 'E');
        assert(s[3] == 'b');
    }
    if c == Command::SelectPane {
        assert(s[0] == 't');
    }
    if c == Command::SelectWindow {
        assert(s[0] == 't');
    }
    if c == Command::ListPanes {
        assert(s[0] == 't');
    }
    if c == Command::ListWindows {
        assert(s[0] == 't');
    }
    if c == Command::KillWindow {
        assert(s[0] == 't');
    }
    if c == Command::SwapPane {
        assert(s[0] == 's');
        assert(s[1] == 't');
    }
    if c == Command::ResizePane {
        assert(s[0] == 't');
        assert(s[1] == 'x');
        assert(s[2] == 'y');
    }
    if c == Command::PasteBuffer {
        assert(s[0] == 't');
        assert(s[1] == 'b');
    }
    if c == Command::RespawnPane {
        assert(s[0] == 'c');
        assert(s[1] == 't');
    }
    if c == Command::RotateWindow {
        assert(s[0] == 't');
    }
    if c == Command::BreakPane {
        assert(s[0] == 't');
    }
    if c == Command::MoveWindow {
        assert(s[0] == 's');
        assert(s[1] == 't');
    }
    if c == Command::SwapWindow {
        assert(s[0] == 's');
        assert(s[1] == 't');
    }
    if c == Command::SwitchClient {
        assert(s[0] == 'c');
        assert(s[1] == 't');
    }
    if c == Command::CopyMode {
        assert(s[0] == 't');
    }
    if c == Command::SetEnvironment {
        assert(s[0] == 't');
    }
    if c == Command::ShowEnvironment {
        assert(s[0] == 't');
    }
    if c == Command::ClearHistory {
        assert(s[0] == 't');
    }
    if c == Command::PipePane {
        assert(s[0] == 't');
    }
    if c == Command::CommandPrompt {
        assert(s[0] == 'I');
        assert(s[1] == 'p');
        assert(s[2] == 'T');
        assert(s[3] == 't');
    }
    if c == Command::RefreshClient {
        assert(s[0] == 'C');
        assert(s[1] == 't');
    }
    if c == Command::ResizeWindow {
        assert(s[0] == 'x');
        assert(s[1] == 'y');
    }
    if c == Command::ListKeys {
        assert(s[0] == 'T');
    }
}

/// A flag takes a value if and only if it is passed on with it, or dropped with it; and a flag that
/// is passed on as it is takes none.
pub proof fn flags_take_a_value_or_none(c: Command, ch: char)
    ensures
        consuming_text(c).contains(ch) == (valued_text(c).contains(ch) || quoted_text(c).contains(ch)
            || skipped_text(c).contains(ch) || (takes_format(c) && ch == 'F')),
        !(consuming_text(c).contains(ch) && bare_text(c).contains(ch)),
{
    flags_that_are_kept(c, ch);
    flags_that_are_kept_with_their_value(c, ch);
    lemma_letters();
    let s = consuming_text(c);
    if s.contains(ch) {
        let k = choose|k: int| 0 <= k < s.len() && s[k] == ch;
        assert(s[k] == ch);
    }
    if c == Command::CapturePane {
        assert(s[0] == 't');
        assert(s[1] == 'S');
        assert(s[2] == 'E');
        assert(s[3] == 'b');
    }
    if c == Command::SelectPane {
        assert(s[0] == 't');
        assert(s[1] == 'T');
        assert(s[2] == 'P');
    }
    if c == Command::SelectWindow {
        assert(s[0] == 't');
    }
    if c == Command::ListPanes {
        assert(s[0] == 't');
        assert(s[1] == 'F');
    }
    if c == Command::ListWindows {
        assert(s[0] == 't');
        assert(s[1] == 'F');
    }
    if c == Command::KillWindow {
        assert(s[0] == 't');
    }
    if c == Command::SwapPane {
        assert(s[0] == 's');
        assert(s[1] == 't');
    }
    if c == Command::ResizePane {
        assert(s[0] == 't');
        assert(s[1] == 'x');
        assert(s[2] == 'y');
    }
    if c == Command::PasteBuffer {
        assert(s[0] == 't');
        assert(s[1] == 'b');
    }
    if c == Command::RespawnPane {
        assert(s[0] == 'c');
        assert(s[1] == 't');
    }
    if c == Command::RotateWindow {
        assert(s[0] == 't');
    }
    if c == Command::BreakPane {
        assert(s[0] == 't');
    }
    if c == Command::MoveWindow {
        assert(s[0] == 's');
        assert(s[1] == 't');
    }
    if c == Command::SwapWindow {
        assert(s[0] == 's');
        assert(s[1] == 't');
    }
    if c == Command::SwitchClient {
        assert(s[0] == 'c');
        assert(s[1] == 't');
    }
    if c == Command::CopyMode {
        assert(s[0] == 't');
    }
    if c == Command::SetEnvironment {
        assert(s[0] == 't');
    }
    if c == Command::ShowEnvironment {
        assert(s[0] == 't');
    }
    if c == Command::ClearHistory {
        assert(s[0] == 't');
    }
    if c == Command::PipePane {
        assert(s[0] == 't');
    }
    if c == Command::CommandPrompt {
        assert(s[0] == 'I');
        assert(s[1] == 'p');
        assert(s[2] == 'T');
        assert(s[3] == 't');
    }
    if c == Command::RefreshClient {
        assert(s[0] == 'C');
        assert(s[1] == 't');
    }
    if c == Command::ResizeWindow {
        assert(s[0] == 'x');
        assert(s[1] == 'y');
        assert(s[2] == 't');
    }
    if c == Command::ListKeys {
        assert(s[0] == 'T');
        assert(s[1] == 't');
    }
    let q = quoted_text(c);
    if q.contains(ch) {
        let k = choose|k: int| 0 <= k < q.len() && q[k] == ch;
        assert(q[k] == ch);
    }
    if c == Command::SelectPane {
        assert(q[0] == 'T');
        assert(q[1] == 'P');
    }
    let d = skipped_text(c);
    if d.contains(ch) {
        let k = choose|k: int| 0 <= k < d.len() && d[k] == ch;
        assert(d[k] == ch);
    }
    if c == Command::ResizeWindow {
        assert(d[0] == 't');
    }
    if c == Command::ListKeys {
        assert(d[0] == 't');
    }
}

/// What is passed on of a flag with a value: both, with the value between quotes where it names a
/// pane's title or its style, and nothing where the flag is dropped.
pub proof fn values_go_with_their_flags(c: Command, flag: char, v: Seq<char>)
    requires
        consuming_text(c).contains(flag),
    ensures
        ({
            let w = seq!['-', flag];
            piece(c, TokenView { word: w, value: Some(v) }) == (if (c == Command::ResizeWindow || c
                == Command::ListKeys) && flag == 't' {
                Seq::empty()
            } else if c == Command::SelectPane && (flag == 'T' || flag == 'P') {
                seq![' ', '-', flag, ' ', '"'] + v + seq!['"']
            } else if (c == Command::ListPanes || c == Command::ListWindows) && flag == 'F' {
                seq![' ', '-', 'F', ' '] + in_quotes(unquoted(v))
            } else {
                seq![' ', '-', flag, ' '] + v
            })
        }),
{
    lemma_letters();
    reveal_strlit("-F");
    reveal_strlit(" -F");
    let w = seq!['-', flag];
    let r = piece(c, TokenView { word: w, value: Some(v) });
    if skipped_text(c).contains(flag) {
        let k = choose|k: int| 0 <= k < skipped_text(c).len() && skipped_text(c)[k] == flag;
        assert(skipped_text(c)[k] == flag);
    }
    if quoted_text(c).contains(flag) {
        let k = choose|k: int| 0 <= k < quoted_text(c).len() && quoted_text(c)[k] == flag;
        assert(quoted_text(c)[k] == flag);
    }
    if (c == Command::ResizeWindow || c == Command::ListKeys) && flag == 't' {
        assert(skipped_text(c)[0] == 't');
    } else if c == Command::SelectPane && (flag == 'T' || flag == 'P') {
        assert(quoted_text(c)[0] == 'T' && quoted_text(c)[1] == 'P');
        assert(r =~= seq![' ', '-', flag, ' ', '"'] + v + seq!['"']);
    } else if (c == Command::ListPanes || c == Command::ListWindows) && flag == 'F' {
        assert(w =~= "-F"@);
        assert(r =~= seq![' ', '-', 'F', ' '] + in_quotes(unquoted(v)));
    } else {
        if takes_format(c) {
            assert(w[1] == flag);
            assert("-F"@[1] == 'F');
            assert(w != "-F"@);
        }
        assert(r =~= seq![' ', '-', flag, ' '] + v);
    }
}

/// What is passed on of a flag without a value: the flag where the command keeps it.
pub proof fn kept_flags_are_passed_on(c: Command, flag: char)
    requires
        bare_text(c).contains(flag),
    ensures
        piece(c, TokenView { word: seq!['-', flag], value: None }) == seq![' ', '-', flag],
{
    flags_take_a_value_or_none(c, flag);
    let w = seq!['-', flag];
    assert(w[1] == flag);
    assert(piece(c, TokenView { word: w, value: None }) =~= seq![' ', '-', flag]);
}

/// What is passed on of a word that does not begin with a dash: all of them for a program, a key or
/// a variable, numbers for a size, and nothing for other commands.
pub proof fn plain_words_are_passed_on(c: Command, w: Seq<char>)
    requires
        !(w.len() > 0 && w[0] == '-'),
    ensures
        piece(c, TokenView { word: w, value: None }) == (if c == Command::RespawnPane || c
            == Command::SetEnvironment || c == Command::PipePane || c == Command::ListKeys || c
            == Command::ShowEnvironment || (c == Command::ResizePane && signed_number(
            w,
            0x7FFF_FFFF,
            0x8000_0000,
        )) {
            seq![' '] + w
        } else {
            Seq::empty()
        }),
{
    reveal_strlit("-F");
    if crate::text::has_prefix(w, "-F"@) {
        assert(w.take(2)[0] == w[0]);
    }
    assert(piece(c, TokenView { word: w, value: None }) =~= (if c == Command::RespawnPane || c
        == Command::SetEnvironment || c == Command::PipePane || c == Command::ListKeys || c
        == Command::ShowEnvironment || (c == Command::ResizePane && signed_number(
        w,
        0x7FFF_FFFF,
        0x8000_0000,
    )) {
        seq![' '] + w
    } else {
        Seq::empty()
    }));
}

/// What is passed on of a flag that a command does not know: only those for a program, a key or a
/// variable that is set have it.
pub proof fn unknown_flags_are_dropped(c: Command, w: Seq<char>)
    requires
        w.len() > 2,
        w[0] == '-',
        w[1] != 'F',
        !signed_number(w, 0x7FFF_FFFF, 0x8000_0000),
    ensures
        piece(c, TokenView { word: w, value: None }) == (if c == Command::RespawnPane || c
            == Command::SetEnvironment || c == Command::PipePane || c == Command::ListKeys {
            seq![' '] + w
        } else {
            Seq::empty()
        }),
{
    reveal_strlit("-F");
    if crate::text::has_prefix(w, "-F"@) {
        assert(w.take(2)[1] == w[1]);
    }
}

} // verus!
