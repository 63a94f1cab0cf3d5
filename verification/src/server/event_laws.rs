//! What holds of events, of what control clients are told of them, and of the words that choose panes.

use vstd::prelude::*;
use crate::server::control_clients::{event_notification, Notification};
use crate::server::pane_focus::{choice, PaneChoice};
use crate::server::request_effects::{effects_of, event_text, Event, Request};
use crate::server::sizes::{resize_step_of, ResizeStep};

verus! {

proof fn lemma_names()
    ensures
        "after-break-pane"@.len() == 16 && "after-break-pane"@[0] == 'a' && "after-break-pane"@[1] == 'f' && "after-break-pane"@[2] == 't' && "after-break-pane"@[3] == 'e' && "after-break-pane"@[4] == 'r' && "after-break-pane"@[5] == '-' && "after-break-pane"@[6] == 'b' && "after-break-pane"@[7] == 'r' && "after-break-pane"@[8] == 'e' && "after-break-pane"@[9] == 'a' && "after-break-pane"@[10] == 'k' && "after-break-pane"@[11] == '-' && "after-break-pane"@[12] == 'p' && "after-break-pane"@[13] == 'a' && "after-break-pane"@[14] == 'n' && "after-break-pane"@[15] == 'e',
        "after-join-pane"@.len() == 15 && "after-join-pane"@[0] == 'a' && "after-join-pane"@[1] == 'f' && "after-join-pane"@[2] == 't' && "after-join-pane"@[3] == 'e' && "after-join-pane"@[4] == 'r' && "after-join-pane"@[5] == '-' && "after-join-pane"@[6] == 'j' && "after-join-pane"@[7] == 'o' && "after-join-pane"@[8] == 'i' && "after-join-pane"@[9] == 'n' && "after-join-pane"@[10] == '-' && "after-join-pane"@[11] == 'p' && "after-join-pane"@[12] == 'a' && "after-join-pane"@[13] == 'n' && "after-join-pane"@[14] == 'e',
        "after-kill-pane"@.len() == 15 && "after-kill-pane"@[0] == 'a' && "after-kill-pane"@[1] == 'f' && "after-kill-pane"@[2] == 't' && "after-kill-pane"@[3] == 'e' && "after-kill-pane"@[4] == 'r' && "after-kill-pane"@[5] == '-' && "after-kill-pane"@[6] == 'k' && "after-kill-pane"@[7] == 'i' && "after-kill-pane"@[8] == 'l' && "after-kill-pane"@[9] == 'l' && "after-kill-pane"@[10] == '-' && "after-kill-pane"@[11] == 'p' && "after-kill-pane"@[12] == 'a' && "after-kill-pane"@[13] == 'n' && "after-kill-pane"@[14] == 'e',
        "after-new-window"@.len() == 16 && "after-new-window"@[0] == 'a' && "after-new-window"@[1] == 'f' && "after-new-window"@[2] == 't' && "after-new-window"@[3] == 'e' && "after-new-window"@[4] == 'r' && "after-new-window"@[5] == '-' && "after-new-window"@[6] == 'n' && "after-new-window"@[7] == 'e' && "after-new-window"@[8] == 'w' && "after-new-window"@[9] == '-' && "after-new-window"@[10] == 'w' && "after-new-window"@[11] == 'i' && "after-new-window"@[12] == 'n' && "after-new-window"@[13] == 'd' && "after-new-window"@[14] == 'o' && "after-new-window"@[15] == 'w',
        "after-rename-session"@.len() == 20 && "after-rename-session"@[0] == 'a' && "after-rename-session"@[1] == 'f' && "after-rename-session"@[2] == 't' && "after-rename-session"@[3] == 'e' && "after-rename-session"@[4] == 'r' && "after-rename-session"@[5] == '-' && "after-rename-session"@[6] == 'r' && "after-rename-session"@[7] == 'e' && "after-rename-session"@[8] == 'n' && "after-rename-session"@[9] == 'a' && "after-rename-session"@[10] == 'm' && "after-rename-session"@[11] == 'e' && "after-rename-session"@[12] == '-' && "after-rename-session"@[13] == 's' && "after-rename-session"@[14] == 'e' && "after-rename-session"@[15] == 's' && "after-rename-session"@[16] == 's' && "after-rename-session"@[17] == 'i' && "after-rename-session"@[18] == 'o' && "after-rename-session"@[19] == 'n',
        "after-rename-window"@.len() == 19 && "after-rename-window"@[0] == 'a' && "after-rename-window"@[1] == 'f' && "after-rename-window"@[2] == 't' && "after-rename-window"@[3] == 'e' && "after-rename-window"@[4] == 'r' && "after-rename-window"@[5] == '-' && "after-rename-window"@[6] == 'r' && "after-rename-window"@[7] == 'e' && "after-rename-window"@[8] == 'n' && "after-rename-window"@[9] == 'a' && "after-rename-window"@[10] == 'm' && "after-rename-window"@[11] == 'e' && "after-rename-window"@[12] == '-' && "after-rename-window"@[13] == 'w' && "after-rename-window"@[14] == 'i' && "after-rename-window"@[15] == 'n' && "after-rename-window"@[16] == 'd' && "after-rename-window"@[17] == 'o' && "after-rename-window"@[18] == 'w',
        "after-resize-pane"@.len() == 17 && "after-resize-pane"@[0] == 'a' && "after-resize-pane"@[1] == 'f' && "after-resize-pane"@[2] == 't' && "after-resize-pane"@[3] == 'e' && "after-resize-pane"@[4] == 'r' && "after-resize-pane"@[5] == '-' && "after-resize-pane"@[6] == 'r' && "after-resize-pane"@[7] == 'e' && "after-resize-pane"@[8] == 's' && "after-resize-pane"@[9] == 'i' && "after-resize-pane"@[10] == 'z' && "after-resize-pane"@[11] == 'e' && "after-resize-pane"@[12] == '-' && "after-resize-pane"@[13] == 'p' && "after-resize-pane"@[14] == 'a' && "after-resize-pane"@[15] == 'n' && "after-resize-pane"@[16] == 'e',
        "after-respawn-pane"@.len() == 18 && "after-respawn-pane"@[0] == 'a' && "after-respawn-pane"@[1] == 'f' && "after-respawn-pane"@[2] == 't' && "after-respawn-pane"@[3] == 'e' && "after-respawn-pane"@[4] == 'r' && "after-respawn-pane"@[5] == '-' && "after-respawn-pane"@[6] == 'r' && "after-respawn-pane"@[7] == 'e' && "after-respawn-pane"@[8] == 's' && "after-respawn-pane"@[9] == 'p' && "after-respawn-pane"@[10] == 'a' && "after-respawn-pane"@[11] == 'w' && "after-respawn-pane"@[12] == 'n' && "after-respawn-pane"@[13] == '-' && "after-respawn-pane"@[14] == 'p' && "after-respawn-pane"@[15] == 'a' && "after-respawn-pane"@[16] == 'n' && "after-respawn-pane"@[17] == 'e',
        "after-rotate-window"@.len() == 19 && "after-rotate-window"@[0] == 'a' && "after-rotate-window"@[1] == 'f' && "after-rotate-window"@[2] == 't' && "after-rotate-window"@[3] == 'e' && "after-rotate-window"@[4] == 'r' && "after-rotate-window"@[5] == '-' && "after-rotate-window"@[6] == 'r' && "after-rotate-window"@[7] == 'o' && "after-rotate-window"@[8] == 't' && "after-rotate-window"@[9] == 'a' && "after-rotate-window"@[10] == 't' && "after-rotate-window"@[11] == 'e' && "after-rotate-window"@[12] == '-' && "after-rotate-window"@[13] == 'w' && "after-rotate-window"@[14] == 'i' && "after-rotate-window"@[15] == 'n' && "after-rotate-window"@[16] == 'd' && "after-rotate-window"@[17] == 'o' && "after-rotate-window"@[18] == 'w',
        "after-select-pane"@.len() == 17 && "after-select-pane"@[0] == 'a' && "after-select-pane"@[1] == 'f' && "after-select-pane"@[2] == 't' && "after-select-pane"@[3] == 'e' && "after-select-pane"@[4] == 'r' && "after-select-pane"@[5] == '-' && "after-select-pane"@[6] == 's' && "after-select-pane"@[7] == 'e' && "after-select-pane"@[8] == 'l' && "after-select-pane"@[9] == 'e' && "after-select-pane"@[10] == 'c' && "after-select-pane"@[11] == 't' && "after-select-pane"@[12] == '-' && "after-select-pane"@[13] == 'p' && "after-select-pane"@[14] == 'a' && "after-select-pane"@[15] == 'n' && "after-select-pane"@[16] == 'e',
        "after-select-window"@.len() == 19 && "after-select-window"@[0] == 'a' && "after-select-window"@[1] == 'f' && "after-select-window"@[2] == 't' && "after-select-window"@[3] == 'e' && "after-select-window"@[4] == 'r' && "after-select-window"@[5] == '-' && "after-select-window"@[6] == 's' && "after-select-window"@[7] == 'e' && "after-select-window"@[8] == 'l' && "after-select-window"@[9] == 'e' && "after-select-window"@[10] == 'c' && "after-select-window"@[11] == 't' && "after-select-window"@[12] == '-' && "after-select-window"@[13] == 'w' && "after-select-window"@[14] == 'i' && "after-select-window"@[15] == 'n' && "after-select-window"@[16] == 'd' && "after-select-window"@[17] == 'o' && "after-select-window"@[18] == 'w',
        "after-split-window"@.len() == 18 && "after-split-window"@[0] == 'a' && "after-split-window"@[1] == 'f' && "after-split-window"@[2] == 't' && "after-split-window"@[3] == 'e' && "after-split-window"@[4] == 'r' && "after-split-window"@[5] == '-' && "after-split-window"@[6] == 's' && "after-split-window"@[7] == 'p' && "after-split-window"@[8] == 'l' && "after-split-window"@[9] == 'i' && "after-split-window"@[10] == 't' && "after-split-window"@[11] == '-' && "after-split-window"@[12] == 'w' && "after-split-window"@[13] == 'i' && "after-split-window"@[14] == 'n' && "after-split-window"@[15] == 'd' && "after-split-window"@[16] == 'o' && "after-split-window"@[17] == 'w',
        "after-swap-pane"@.len() == 15 && "after-swap-pane"@[0] == 'a' && "after-swap-pane"@[1] == 'f' && "after-swap-pane"@[2] == 't' && "after-swap-pane"@[3] == 'e' && "after-swap-pane"@[4] == 'r' && "after-swap-pane"@[5] == '-' && "after-swap-pane"@[6] == 's' && "after-swap-pane"@[7] == 'w' && "after-swap-pane"@[8] == 'a' && "after-swap-pane"@[9] == 'p' && "after-swap-pane"@[10] == '-' && "after-swap-pane"@[11] == 'p' && "after-swap-pane"@[12] == 'a' && "after-swap-pane"@[13] == 'n' && "after-swap-pane"@[14] == 'e',
        "before-kill-pane"@.len() == 16 && "before-kill-pane"@[0] == 'b' && "before-kill-pane"@[1] == 'e' && "before-kill-pane"@[2] == 'f' && "before-kill-pane"@[3] == 'o' && "before-kill-pane"@[4] == 'r' && "before-kill-pane"@[5] == 'e' && "before-kill-pane"@[6] == '-' && "before-kill-pane"@[7] == 'k' && "before-kill-pane"@[8] == 'i' && "before-kill-pane"@[9] == 'l' && "before-kill-pane"@[10] == 'l' && "before-kill-pane"@[11] == '-' && "before-kill-pane"@[12] == 'p' && "before-kill-pane"@[13] == 'a' && "before-kill-pane"@[14] == 'n' && "before-kill-pane"@[15] == 'e',
        "before-new-window"@.len() == 17 && "before-new-window"@[0] == 'b' && "before-new-window"@[1] == 'e' && "before-new-window"@[2] == 'f' && "before-new-window"@[3] == 'o' && "before-new-window"@[4] == 'r' && "before-new-window"@[5] == 'e' && "before-new-window"@[6] == '-' && "before-new-window"@[7] == 'n' && "before-new-window"@[8] == 'e' && "before-new-window"@[9] == 'w' && "before-new-window"@[10] == '-' && "before-new-window"@[11] == 'w' && "before-new-window"@[12] == 'i' && "before-new-window"@[13] == 'n' && "before-new-window"@[14] == 'd' && "before-new-window"@[15] == 'o' && "before-new-window"@[16] == 'w',
        "before-rename-session"@.len() == 21 && "before-rename-session"@[0] == 'b' && "before-rename-session"@[1] == 'e' && "before-rename-session"@[2] == 'f' && "before-rename-session"@[3] == 'o' && "before-rename-session"@[4] == 'r' && "before-rename-session"@[5] == 'e' && "before-rename-session"@[6] == '-' && "before-rename-session"@[7] == 'r' && "before-rename-session"@[8] == 'e' && "before-rename-session"@[9] == 'n' && "before-rename-session"@[10] == 'a' && "before-rename-session"@[11] == 'm' && "before-rename-session"@[12] == 'e' && "before-rename-session"@[13] == '-' && "before-rename-session"@[14] == 's' && "before-rename-session"@[15] == 'e' && "before-rename-session"@[16] == 's' && "before-rename-session"@[17] == 's' && "before-rename-session"@[18] == 'i' && "before-rename-session"@[19] == 'o' && "before-rename-session"@[20] == 'n',
        "before-rename-window"@.len() == 20 && "before-rename-window"@[0] == 'b' && "before-rename-window"@[1] == 'e' && "before-rename-window"@[2] == 'f' && "before-rename-window"@[3] == 'o' && "before-rename-window"@[4] == 'r' && "before-rename-window"@[5] == 'e' && "before-rename-window"@[6] == '-' && "before-rename-window"@[7] == 'r' && "before-rename-window"@[8] == 'e' && "before-rename-window"@[9] == 'n' && "before-rename-window"@[10] == 'a' && "before-rename-window"@[11] == 'm' && "before-rename-window"@[12] == 'e' && "before-rename-window"@[13] == '-' && "before-rename-window"@[14] == 'w' && "before-rename-window"@[15] == 'i' && "before-rename-window"@[16] == 'n' && "before-rename-window"@[17] == 'd' && "before-rename-window"@[18] == 'o' && "before-rename-window"@[19] == 'w',
        "before-select-pane"@.len() == 18 && "before-select-pane"@[0] == 'b' && "before-select-pane"@[1] == 'e' && "before-select-pane"@[2] == 'f' && "before-select-pane"@[3] == 'o' && "before-select-pane"@[4] == 'r' && "before-select-pane"@[5] == 'e' && "before-select-pane"@[6] == '-' && "before-select-pane"@[7] == 's' && "before-select-pane"@[8] == 'e' && "before-select-pane"@[9] == 'l' && "before-select-pane"@[10] == 'e' && "before-select-pane"@[11] == 'c' && "before-select-pane"@[12] == 't' && "before-select-pane"@[13] == '-' && "before-select-pane"@[14] == 'p' && "before-select-pane"@[15] == 'a' && "before-select-pane"@[16] == 'n' && "before-select-pane"@[17] == 'e',
        "before-select-window"@.len() == 20 && "before-select-window"@[0] == 'b' && "before-select-window"@[1] == 'e' && "before-select-window"@[2] == 'f' && "before-select-window"@[3] == 'o' && "before-select-window"@[4] == 'r' && "before-select-window"@[5] == 'e' && "before-select-window"@[6] == '-' && "before-select-window"@[7] == 's' && "before-select-window"@[8] == 'e' && "before-select-window"@[9] == 'l' && "before-select-window"@[10] == 'e' && "before-select-window"@[11] == 'c' && "before-select-window"@[12] == 't' && "before-select-window"@[13] == '-' && "before-select-window"@[14] == 'w' && "before-select-window"@[15] == 'i' && "before-select-window"@[16] == 'n' && "before-select-window"@[17] == 'd' && "before-select-window"@[18] == 'o' && "before-select-window"@[19] == 'w',
        "before-split-window"@.len() == 19 && "before-split-window"@[0] == 'b' && "before-split-window"@[1] == 'e' && "before-split-window"@[2] == 'f' && "before-split-window"@[3] == 'o' && "before-split-window"@[4] == 'r' && "before-split-window"@[5] == 'e' && "before-split-window"@[6] == '-' && "before-split-window"@[7] == 's' && "before-split-window"@[8] == 'p' && "before-split-window"@[9] == 'l' && "before-split-window"@[10] == 'i' && "before-split-window"@[11] == 't' && "before-split-window"@[12] == '-' && "before-split-window"@[13] == 'w' && "before-split-window"@[14] == 'i' && "before-split-window"@[15] == 'n' && "before-split-window"@[16] == 'd' && "before-split-window"@[17] == 'o' && "before-split-window"@[18] == 'w',
        "client-attached"@.len() == 15 && "client-attached"@[0] == 'c' && "client-attached"@[1] == 'l' && "client-attached"@[2] == 'i' && "client-attached"@[3] == 'e' && "client-attached"@[4] == 'n' && "client-attached"@[5] == 't' && "client-attached"@[6] == '-' && "client-attached"@[7] == 'a' && "client-attached"@[8] == 't' && "client-attached"@[9] == 't' && "client-attached"@[10] == 'a' && "client-attached"@[11] == 'c' && "client-attached"@[12] == 'h' && "client-attached"@[13] == 'e' && "client-attached"@[14] == 'd',
        "client-detached"@.len() == 15 && "client-detached"@[0] == 'c' && "client-detached"@[1] == 'l' && "client-detached"@[2] == 'i' && "client-detached"@[3] == 'e' && "client-detached"@[4] == 'n' && "client-detached"@[5] == 't' && "client-detached"@[6] == '-' && "client-detached"@[7] == 'd' && "client-detached"@[8] == 'e' && "client-detached"@[9] == 't' && "client-detached"@[10] == 'a' && "client-detached"@[11] == 'c' && "client-detached"@[12] == 'h' && "client-detached"@[13] == 'e' && "client-detached"@[14] == 'd',
        "client-resized"@.len() == 14 && "client-resized"@[0] == 'c' && "client-resized"@[1] == 'l' && "client-resized"@[2] == 'i' && "client-resized"@[3] == 'e' && "client-resized"@[4] == 'n' && "client-resized"@[5] == 't' && "client-resized"@[6] == '-' && "client-resized"@[7] == 'r' && "client-resized"@[8] == 'e' && "client-resized"@[9] == 's' && "client-resized"@[10] == 'i' && "client-resized"@[11] == 'z' && "client-resized"@[12] == 'e' && "client-resized"@[13] == 'd',
        "pane-focus-in"@.len() == 13 && "pane-focus-in"@[0] == 'p' && "pane-focus-in"@[1] == 'a' && "pane-focus-in"@[2] == 'n' && "pane-focus-in"@[3] == 'e' && "pane-focus-in"@[4] == '-' && "pane-focus-in"@[5] == 'f' && "pane-focus-in"@[6] == 'o' && "pane-focus-in"@[7] == 'c' && "pane-focus-in"@[8] == 'u' && "pane-focus-in"@[9] == 's' && "pane-focus-in"@[10] == '-' && "pane-focus-in"@[11] == 'i' && "pane-focus-in"@[12] == 'n',
        "pane-focus-out"@.len() == 14 && "pane-focus-out"@[0] == 'p' && "pane-focus-out"@[1] == 'a' && "pane-focus-out"@[2] == 'n' && "pane-focus-out"@[3] == 'e' && "pane-focus-out"@[4] == '-' && "pane-focus-out"@[5] == 'f' && "pane-focus-out"@[6] == 'o' && "pane-focus-out"@[7] == 'c' && "pane-focus-out"@[8] == 'u' && "pane-focus-out"@[9] == 's' && "pane-focus-out"@[10] == '-' && "pane-focus-out"@[11] == 'o' && "pane-focus-out"@[12] == 'u' && "pane-focus-out"@[13] == 't',
        "pane-mode-changed"@.len() == 17 && "pane-mode-changed"@[0] == 'p' && "pane-mode-changed"@[1] == 'a' && "pane-mode-changed"@[2] == 'n' && "pane-mode-changed"@[3] == 'e' && "pane-mode-changed"@[4] == '-' && "pane-mode-changed"@[5] == 'm' && "pane-mode-changed"@[6] == 'o' && "pane-mode-changed"@[7] == 'd' && "pane-mode-changed"@[8] == 'e' && "pane-mode-changed"@[9] == '-' && "pane-mode-changed"@[10] == 'c' && "pane-mode-changed"@[11] == 'h' && "pane-mode-changed"@[12] == 'a' && "pane-mode-changed"@[13] == 'n' && "pane-mode-changed"@[14] == 'g' && "pane-mode-changed"@[15] == 'e' && "pane-mode-changed"@[16] == 'd',
        "window-closed"@.len() == 13 && "window-closed"@[0] == 'w' && "window-closed"@[1] == 'i' && "window-closed"@[2] == 'n' && "window-closed"@[3] == 'd' && "window-closed"@[4] == 'o' && "window-closed"@[5] == 'w' && "window-closed"@[6] == '-' && "window-closed"@[7] == 'c' && "window-closed"@[8] == 'l' && "window-closed"@[9] == 'o' && "window-closed"@[10] == 's' && "window-closed"@[11] == 'e' && "window-closed"@[12] == 'd',
        "window-linked"@.len() == 13 && "window-linked"@[0] == 'w' && "window-linked"@[1] == 'i' && "window-linked"@[2] == 'n' && "window-linked"@[3] == 'd' && "window-linked"@[4] == 'o' && "window-linked"@[5] == 'w' && "window-linked"@[6] == '-' && "window-linked"@[7] == 'l' && "window-linked"@[8] == 'i' && "window-linked"@[9] == 'n' && "window-linked"@[10] == 'k' && "window-linked"@[11] == 'e' && "window-linked"@[12] == 'd',
        "window-unlinked"@.len() == 15 && "window-unlinked"@[0] == 'w' && "window-unlinked"@[1] == 'i' && "window-unlinked"@[2] == 'n' && "window-unlinked"@[3] == 'd' && "window-unlinked"@[4] == 'o' && "window-unlinked"@[5] == 'w' && "window-unlinked"@[6] == '-' && "window-unlinked"@[7] == 'u' && "window-unlinked"@[8] == 'n' && "window-unlinked"@[9] == 'l' && "window-unlinked"@[10] == 'i' && "window-unlinked"@[11] == 'n' && "window-unlinked"@[12] == 'k' && "window-unlinked"@[13] == 'e' && "window-unlinked"@[14] == 'd',
{
    reveal_strlit("after-break-pane");
    reveal_strlit("after-join-pane");
    reveal_strlit("after-kill-pane");
    reveal_strlit("after-new-window");
    reveal_strlit("after-rename-session");
    reveal_strlit("after-rename-window");
    reveal_strlit("after-resize-pane");
    reveal_strlit("after-respawn-pane");
    reveal_strlit("after-rotate-window");
    reveal_strlit("after-select-pane");
    reveal_strlit("after-select-window");
    reveal_strlit("after-split-window");
    reveal_strlit("after-swap-pane");
    reveal_strlit("before-kill-pane");
    reveal_strlit("before-new-window");
    reveal_strlit("before-rename-session");
    reveal_strlit("before-rename-window");
    reveal_strlit("before-select-pane");
    reveal_strlit("before-select-window");
    reveal_strlit("before-split-window");
    reveal_strlit("client-attached");
    reveal_strlit("client-detached");
    reveal_strlit("client-resized");
    reveal_strlit("pane-focus-in");
    reveal_strlit("pane-focus-out");
    reveal_strlit("pane-mode-changed");
    reveal_strlit("window-closed");
    reveal_strlit("window-linked");
    reveal_strlit("window-unlinked");
}

/// Each event is known by its own name.
pub proof fn events_are_known_by_their_names(a: Event, b: Event)
    ensures
        (event_text(a) == event_text(b)) == (a == b),
        event_text(Event::BeforeNewWindow) == "before-new-window"@,
        event_text(Event::AfterNewWindow) == "after-new-window"@,
        event_text(Event::BeforeSplitWindow) == "before-split-window"@,
        event_text(Event::AfterSplitWindow) == "after-split-window"@,
        event_text(Event::BeforeKillPane) == "before-kill-pane"@,
        event_text(Event::AfterKillPane) == "after-kill-pane"@,
        event_text(Event::AfterSelectWindow) == "after-select-window"@,
        event_text(Event::ClientAttached) == "client-attached"@,
        event_text(Event::ClientDetached) == "client-detached"@,
        event_text(Event::AfterResizePane) == "after-resize-pane"@,
        event_text(Event::PaneModeChanged) == "pane-mode-changed"@,
        event_text(Event::ClientResized) == "client-resized"@,
        event_text(Event::BeforeSelectWindow) == "before-select-window"@,
        event_text(Event::BeforeRenameWindow) == "before-rename-window"@,
        event_text(Event::AfterRenameWindow) == "after-rename-window"@,
        event_text(Event::BeforeSelectPane) == "before-select-pane"@,
        event_text(Event::AfterSelectPane) == "after-select-pane"@,
        event_text(Event::WindowClosed) == "window-closed"@,
        event_text(Event::BeforeRenameSession) == "before-rename-session"@,
        event_text(Event::AfterRenameSession) == "after-rename-session"@,
        event_text(Event::AfterSwapPane) == "after-swap-pane"@,
        event_text(Event::AfterRotateWindow) == "after-rotate-window"@,
        event_text(Event::AfterBreakPane) == "after-break-pane"@,
        event_text(Event::AfterJoinPane) == "after-join-pane"@,
        event_text(Event::AfterRespawnPane) == "after-respawn-pane"@,
        event_text(Event::WindowLinked) == "window-linked"@,
        event_text(Event::WindowUnlinked) == "window-unlinked"@,
        event_text(Event::PaneFocusIn) == "pane-focus-in"@,
        event_text(Event::PaneFocusOut) == "pane-focus-out"@,
{
    lemma_names();
}

/// What control clients are told of an event: which window came or went, what is called otherwise
/// now, where the focus is, and how a window is laid out.
pub proof fn events_are_told(
    e: Event,
    session: usize,
    window: usize,
    pane: usize,
    window_name: String,
    session_name: String,
    layout: String,
)
    ensures
        event_notification(event_text(e), session, window, pane, window_name, session_name, layout) == (
        match e {
            Event::AfterNewWindow | Event::WindowLinked => Some(Notification::WindowAdd { window }),
            Event::AfterKillPane | Event::WindowClosed | Event::WindowUnlinked => Some(
                Notification::WindowClose { window },
            ),
            Event::AfterRenameWindow => Some(Notification::WindowRenamed { window, name: window_name }),
            Event::AfterSelectWindow => Some(Notification::SessionWindowChanged { session, window }),
            Event::AfterSelectPane => Some(Notification::WindowPaneChanged { window, pane }),
            Event::AfterRenameSession => Some(Notification::SessionRenamed { name: session_name }),
            Event::ClientAttached => Some(Notification::SessionChanged { session, name: session_name }),
            Event::ClientDetached => Some(Notification::ClientDetached { id: None }),
            Event::AfterSplitWindow
            | Event::AfterResizePane
            | Event::AfterBreakPane
            | Event::AfterJoinPane
            | Event::AfterRotateWindow
            | Event::AfterSwapPane => Some(Notification::LayoutChange { window, layout }),
            _ => None,
        }),
{
    lemma_names();
}

/// The word that asks for a pane goes its way, and two words never ask for the same.
pub proof fn panes_are_chosen_by_their_words(a: Seq<char>, b: Seq<char>)
    ensures
        choice(seq!['U']) == PaneChoice::Up,
        choice(seq!['D']) == PaneChoice::Down,
        choice(seq!['L']) == PaneChoice::Left,
        choice(seq!['R']) == PaneChoice::Right,
        choice(seq!['l', 'a', 's', 't']) == PaneChoice::Last,
        choice(seq!['n', 'e', 'x', 't']) == PaneChoice::Next,
        choice(seq!['p', 'r', 'e', 'v']) == PaneChoice::Previous,
        choice(seq!['m', 'a', 'r', 'k']) == PaneChoice::Mark,
        choice(seq!['u', 'n', 'm', 'a', 'r', 'k']) == PaneChoice::Unmark,
        choice(a) == choice(b) && choice(a) != PaneChoice::Nothing ==> a == b,
{
    reveal_strlit("U");
    reveal_strlit("D");
    reveal_strlit("L");
    reveal_strlit("R");
    reveal_strlit("last");
    reveal_strlit("mark");
    reveal_strlit("next");
    reveal_strlit("prev");
    reveal_strlit("unmark");
    assert("U"@ =~= seq!['U']);
    assert("D"@ =~= seq!['D']);
    assert("L"@ =~= seq!['L']);
    assert("R"@ =~= seq!['R']);
    assert("last"@ =~= seq!['l', 'a', 's', 't']);
    assert("mark"@ =~= seq!['m', 'a', 'r', 'k']);
    assert("next"@ =~= seq!['n', 'e', 'x', 't']);
    assert("prev"@ =~= seq!['p', 'r', 'e', 'v']);
    assert("unmark"@ =~= seq!['u', 'n', 'm', 'a', 'r', 'k']);
    assert("U"@[0] == 'U' && "D"@[0] == 'D' && "L"@[0] == 'L' && "R"@[0] == 'R');
    assert("last"@[0] == 'l' && "mark"@[0] == 'm' && "next"@[0] == 'n' && "prev"@[0] == 'p');
}

/// A pane grows downwards and to the right by what it shrinks upwards and to the left.
pub proof fn resizing_goes_both_ways(amount: u16)
    requires
        amount < 0x8000,
    ensures
        resize_step_of(seq!['D'], amount) == (ResizeStep::Vertical { amount: amount as i16 }),
        resize_step_of(seq!['U'], amount) == (ResizeStep::Vertical { amount: (-amount) as i16 }),
        resize_step_of(seq!['R'], amount) == (ResizeStep::Horizontal { amount: amount as i16 }),
        resize_step_of(seq!['L'], amount) == (ResizeStep::Horizontal { amount: (-amount) as i16 }),
{
    reveal_strlit("U");
    reveal_strlit("D");
    reveal_strlit("L");
    reveal_strlit("R");
    assert("U"@ =~= seq!['U']);
    assert("D"@ =~= seq!['D']);
    assert("L"@ =~= seq!['L']);
    assert("R"@ =~= seq!['R']);
    assert(seq!['U'][0] == 'U' && seq!['D'][0] == 'D' && seq!['L'][0] == 'L' && seq!['R'][0] == 'R');
}

/// What is done to a window or a pane runs its hooks: a request that opens, splits, closes, selects or
/// renames something runs those of that event before and after it.
pub proof fn requests_run_their_hooks(took: bool)
    ensures
        effects_of(Request::NewWindow, took).before == Some(Event::BeforeNewWindow),
        effects_of(Request::NewWindow, took).after == Some(Event::AfterNewWindow),
        effects_of(Request::SplitWindow, took).before == Some(Event::BeforeSplitWindow),
        effects_of(Request::SplitWindow, took).after == Some(Event::AfterSplitWindow),
        effects_of(Request::KillPane, took).before == Some(Event::BeforeKillPane),
        effects_of(Request::KillPane, took).after == Some(Event::AfterKillPane),
        effects_of(Request::SelectWindow, took).before == Some(Event::BeforeSelectWindow),
        effects_of(Request::SelectWindow, took).after == Some(Event::AfterSelectWindow),
        effects_of(Request::SelectPane, took).before == Some(Event::BeforeSelectPane),
        effects_of(Request::SelectPane, took).after == Some(Event::AfterSelectPane),
        effects_of(Request::RenameWindow, took).before == Some(Event::BeforeRenameWindow),
        effects_of(Request::RenameWindow, took).after == Some(Event::AfterRenameWindow),
        effects_of(Request::RenameSession, took).before == Some(Event::BeforeRenameSession),
        effects_of(Request::RenameSession, took).after == Some(Event::AfterRenameSession),
        effects_of(Request::NextWindow, took) == effects_of(Request::SelectWindow, took),
        effects_of(Request::PrevWindow, took) == effects_of(Request::SelectWindow, took),
        effects_of(Request::NewWindowPrint, took) == effects_of(Request::NewWindow, took),
        effects_of(Request::SplitWindowPrint, took) == effects_of(Request::SplitWindow, took),
        effects_of(Request::KillPaneById, took) == effects_of(Request::KillPane, took),
        effects_of(Request::KillWindow, took).after == Some(Event::WindowClosed),
        effects_of(Request::ResizePane, took).after == Some(Event::AfterResizePane),
        effects_of(Request::ZoomPane, took).after == Some(Event::AfterResizePane),
        effects_of(Request::SwapPane, took).after == Some(Event::AfterSwapPane),
        effects_of(Request::RotateWindow, took).after == Some(Event::AfterRotateWindow),
        effects_of(Request::BreakPane, took).after == Some(Event::AfterBreakPane),
        effects_of(Request::RespawnPane, took).after == Some(Event::AfterRespawnPane),
        effects_of(Request::ClientAttach, took).after == Some(Event::ClientAttached),
        effects_of(Request::ClientDetach, took).after == Some(Event::ClientDetached),
        effects_of(Request::ClientSize, took).after == Some(Event::ClientResized),
        effects_of(Request::FocusIn, took).after == Some(Event::PaneFocusIn),
        effects_of(Request::FocusOut, took).after == Some(Event::PaneFocusOut),
        effects_of(Request::JoinPane, took).after == (if took {
            Some(Event::AfterJoinPane)
        } else {
            None
        }),
        effects_of(Request::LinkWindow, took).after == (if took {
            Some(Event::WindowLinked)
        } else {
            None
        }),
        effects_of(Request::UnlinkWindow, took).after == (if took {
            Some(Event::WindowUnlinked)
        } else {
            None
        }),
{
}

/// Panes are laid out anew where one came, went or changed its size, and keys await their echo.
pub proof fn requests_lay_out_anew(took: bool)
    ensures
        effects_of(Request::NewWindow, took).resize,
        effects_of(Request::SplitWindow, took).resize && effects_of(Request::SplitWindow, took).unzoom,
        effects_of(Request::KillPane, took).resize && effects_of(Request::KillPane, took).unzoom,
        effects_of(Request::ResizePane, took).resize && effects_of(Request::ResizePane, took).unzoom,
        effects_of(Request::SelectLayout, took).resize && effects_of(Request::SelectLayout, took).unzoom,
        effects_of(Request::ClientSize, took).resize,
        effects_of(Request::SendKeys, took).awaits_echo && effects_of(Request::SendText, took).awaits_echo
            && effects_of(Request::SendKey, took).awaits_echo && effects_of(
            Request::SendPaste,
            took,
        ).awaits_echo,
        effects_of(Request::SetOption, took).state_dirty && effects_of(Request::SetOption, took).meta_dirty,
        effects_of(Request::BindKey, took).state_dirty && effects_of(Request::BindKey, took).meta_dirty,
{
}

} // verus!
