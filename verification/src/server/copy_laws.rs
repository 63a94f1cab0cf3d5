//! What holds of the commands of the mode in which text is copied.

use vstd::prelude::*;
use crate::server::copy_commands::{
    after_step, after_steps, all_steps, command_steps, pipe_program, CopyHook, CopyMode, CopyState,
    CopyStep, Motion, Place, SelectionMode,
};
use crate::text::{
    decimal, decimal_reads_back, has_prefix, has_substring, is_digit, is_white, lemma_decimal_digits,
    trimmed, trimmed_end, trimmed_start,
};

verus! {

proof fn lemma_words()
    ensures
        "cancel"@.len() == 6 && "cancel"@[0] == 'c' && "cancel"@[1] == 'a' && "cancel"@[2] == 'n' && "cancel"@[3] == 'c' && "cancel"@[4] == 'e' && "cancel"@[5] == 'l',
        "begin-selection"@.len() == 15 && "begin-selection"@[0] == 'b' && "begin-selection"@[1] == 'e' && "begin-selection"@[2] == 'g' && "begin-selection"@[3] == 'i' && "begin-selection"@[4] == 'n' && "begin-selection"@[5] == '-' && "begin-selection"@[6] == 's' && "begin-selection"@[7] == 'e' && "begin-selection"@[8] == 'l' && "begin-selection"@[9] == 'e' && "begin-selection"@[10] == 'c' && "begin-selection"@[11] == 't' && "begin-selection"@[12] == 'i' && "begin-selection"@[13] == 'o' && "begin-selection"@[14] == 'n',
        "select-line"@.len() == 11 && "select-line"@[0] == 's' && "select-line"@[1] == 'e' && "select-line"@[2] == 'l' && "select-line"@[3] == 'e' && "select-line"@[4] == 'c' && "select-line"@[5] == 't' && "select-line"@[6] == '-' && "select-line"@[7] == 'l' && "select-line"@[8] == 'i' && "select-line"@[9] == 'n' && "select-line"@[10] == 'e',
        "rectangle-toggle"@.len() == 16 && "rectangle-toggle"@[0] == 'r' && "rectangle-toggle"@[1] == 'e' && "rectangle-toggle"@[2] == 'c' && "rectangle-toggle"@[3] == 't' && "rectangle-toggle"@[4] == 'a' && "rectangle-toggle"@[5] == 'n' && "rectangle-toggle"@[6] == 'g' && "rectangle-toggle"@[7] == 'l' && "rectangle-toggle"@[8] == 'e' && "rectangle-toggle"@[9] == '-' && "rectangle-toggle"@[10] == 't' && "rectangle-toggle"@[11] == 'o' && "rectangle-toggle"@[12] == 'g' && "rectangle-toggle"@[13] == 'g' && "rectangle-toggle"@[14] == 'l' && "rectangle-toggle"@[15] == 'e',
        "copy-selection"@.len() == 14 && "copy-selection"@[0] == 'c' && "copy-selection"@[1] == 'o' && "copy-selection"@[2] == 'p' && "copy-selection"@[3] == 'y' && "copy-selection"@[4] == '-' && "copy-selection"@[5] == 's' && "copy-selection"@[6] == 'e' && "copy-selection"@[7] == 'l' && "copy-selection"@[8] == 'e' && "copy-selection"@[9] == 'c' && "copy-selection"@[10] == 't' && "copy-selection"@[11] == 'i' && "copy-selection"@[12] == 'o' && "copy-selection"@[13] == 'n',
        "copy-selection-no-clear"@.len() == 23 && "copy-selection-no-clear"@[0] == 'c' && "copy-selection-no-clear"@[1] == 'o' && "copy-selection-no-clear"@[2] == 'p' && "copy-selection-no-clear"@[3] == 'y' && "copy-selection-no-clear"@[4] == '-' && "copy-selection-no-clear"@[5] == 's' && "copy-selection-no-clear"@[6] == 'e' && "copy-selection-no-clear"@[7] == 'l' && "copy-selection-no-clear"@[8] == 'e' && "copy-selection-no-clear"@[9] == 'c' && "copy-selection-no-clear"@[10] == 't' && "copy-selection-no-clear"@[11] == 'i' && "copy-selection-no-clear"@[12] == 'o' && "copy-selection-no-clear"@[13] == 'n' && "copy-selection-no-clear"@[14] == '-' && "copy-selection-no-clear"@[15] == 'n' && "copy-selection-no-clear"@[16] == 'o' && "copy-selection-no-clear"@[17] == '-' && "copy-selection-no-clear"@[18] == 'c' && "copy-selection-no-clear"@[19] == 'l' && "copy-selection-no-clear"@[20] == 'e' && "copy-selection-no-clear"@[21] == 'a' && "copy-selection-no-clear"@[22] == 'r',
        "copy-selection-and-cancel"@.len() == 25 && "copy-selection-and-cancel"@[0] == 'c' && "copy-selection-and-cancel"@[1] == 'o' && "copy-selection-and-cancel"@[2] == 'p' && "copy-selection-and-cancel"@[3] == 'y' && "copy-selection-and-cancel"@[4] == '-' && "copy-selection-and-cancel"@[5] == 's' && "copy-selection-and-cancel"@[6] == 'e' && "copy-selection-and-cancel"@[7] == 'l' && "copy-selection-and-cancel"@[8] == 'e' && "copy-selection-and-cancel"@[9] == 'c' && "copy-selection-and-cancel"@[10] == 't' && "copy-selection-and-cancel"@[11] == 'i' && "copy-selection-and-cancel"@[12] == 'o' && "copy-selection-and-cancel"@[13] == 'n' && "copy-selection-and-cancel"@[14] == '-' && "copy-selection-and-cancel"@[15] == 'a' && "copy-selection-and-cancel"@[16] == 'n' && "copy-selection-and-cancel"@[17] == 'd' && "copy-selection-and-cancel"@[18] == '-' && "copy-selection-and-cancel"@[19] == 'c' && "copy-selection-and-cancel"@[20] == 'a' && "copy-selection-and-cancel"@[21] == 'n' && "copy-selection-and-cancel"@[22] == 'c' && "copy-selection-and-cancel"@[23] == 'e' && "copy-selection-and-cancel"@[24] == 'l',
        "copy-pipe"@.len() == 9 && "copy-pipe"@[0] == 'c' && "copy-pipe"@[1] == 'o' && "copy-pipe"@[2] == 'p' && "copy-pipe"@[3] == 'y' && "copy-pipe"@[4] == '-' && "copy-pipe"@[5] == 'p' && "copy-pipe"@[6] == 'i' && "copy-pipe"@[7] == 'p' && "copy-pipe"@[8] == 'e',
        "cursor-up"@.len() == 9 && "cursor-up"@[0] == 'c' && "cursor-up"@[1] == 'u' && "cursor-up"@[2] == 'r' && "cursor-up"@[3] == 's' && "cursor-up"@[4] == 'o' && "cursor-up"@[5] == 'r' && "cursor-up"@[6] == '-' && "cursor-up"@[7] == 'u' && "cursor-up"@[8] == 'p',
        "cursor-down"@.len() == 11 && "cursor-down"@[0] == 'c' && "cursor-down"@[1] == 'u' && "cursor-down"@[2] == 'r' && "cursor-down"@[3] == 's' && "cursor-down"@[4] == 'o' && "cursor-down"@[5] == 'r' && "cursor-down"@[6] == '-' && "cursor-down"@[7] == 'd' && "cursor-down"@[8] == 'o' && "cursor-down"@[9] == 'w' && "cursor-down"@[10] == 'n',
        "cursor-left"@.len() == 11 && "cursor-left"@[0] == 'c' && "cursor-left"@[1] == 'u' && "cursor-left"@[2] == 'r' && "cursor-left"@[3] == 's' && "cursor-left"@[4] == 'o' && "cursor-left"@[5] == 'r' && "cursor-left"@[6] == '-' && "cursor-left"@[7] == 'l' && "cursor-left"@[8] == 'e' && "cursor-left"@[9] == 'f' && "cursor-left"@[10] == 't',
        "cursor-right"@.len() == 12 && "cursor-right"@[0] == 'c' && "cursor-right"@[1] == 'u' && "cursor-right"@[2] == 'r' && "cursor-right"@[3] == 's' && "cursor-right"@[4] == 'o' && "cursor-right"@[5] == 'r' && "cursor-right"@[6] == '-' && "cursor-right"@[7] == 'r' && "cursor-right"@[8] == 'i' && "cursor-right"@[9] == 'g' && "cursor-right"@[10] == 'h' && "cursor-right"@[11] == 't',
        "start-of-line"@.len() == 13 && "start-of-line"@[0] == 's' && "start-of-line"@[1] == 't' && "start-of-line"@[2] == 'a' && "start-of-line"@[3] == 'r' && "start-of-line"@[4] == 't' && "start-of-line"@[5] == '-' && "start-of-line"@[6] == 'o' && "start-of-line"@[7] == 'f' && "start-of-line"@[8] == '-' && "start-of-line"@[9] == 'l' && "start-of-line"@[10] == 'i' && "start-of-line"@[11] == 'n' && "start-of-line"@[12] == 'e',
        "end-of-line"@.len() == 11 && "end-of-line"@[0] == 'e' && "end-of-line"@[1] == 'n' && "end-of-line"@[2] == 'd' && "end-of-line"@[3] == '-' && "end-of-line"@[4] == 'o' && "end-of-line"@[5] == 'f' && "end-of-line"@[6] == '-' && "end-of-line"@[7] == 'l' && "end-of-line"@[8] == 'i' && "end-of-line"@[9] == 'n' && "end-of-line"@[10] == 'e',
        "back-to-indentation"@.len() == 19 && "back-to-indentation"@[0] == 'b' && "back-to-indentation"@[1] == 'a' && "back-to-indentation"@[2] == 'c' && "back-to-indentation"@[3] == 'k' && "back-to-indentation"@[4] == '-' && "back-to-indentation"@[5] == 't' && "back-to-indentation"@[6] == 'o' && "back-to-indentation"@[7] == '-' && "back-to-indentation"@[8] == 'i' && "back-to-indentation"@[9] == 'n' && "back-to-indentation"@[10] == 'd' && "back-to-indentation"@[11] == 'e' && "back-to-indentation"@[12] == 'n' && "back-to-indentation"@[13] == 't' && "back-to-indentation"@[14] == 'a' && "back-to-indentation"@[15] == 't' && "back-to-indentation"@[16] == 'i' && "back-to-indentation"@[17] == 'o' && "back-to-indentation"@[18] == 'n',
        "next-word"@.len() == 9 && "next-word"@[0] == 'n' && "next-word"@[1] == 'e' && "next-word"@[2] == 'x' && "next-word"@[3] == 't' && "next-word"@[4] == '-' && "next-word"@[5] == 'w' && "next-word"@[6] == 'o' && "next-word"@[7] == 'r' && "next-word"@[8] == 'd',
        "previous-word"@.len() == 13 && "previous-word"@[0] == 'p' && "previous-word"@[1] == 'r' && "previous-word"@[2] == 'e' && "previous-word"@[3] == 'v' && "previous-word"@[4] == 'i' && "previous-word"@[5] == 'o' && "previous-word"@[6] == 'u' && "previous-word"@[7] == 's' && "previous-word"@[8] == '-' && "previous-word"@[9] == 'w' && "previous-word"@[10] == 'o' && "previous-word"@[11] == 'r' && "previous-word"@[12] == 'd',
        "next-word-end"@.len() == 13 && "next-word-end"@[0] == 'n' && "next-word-end"@[1] == 'e' && "next-word-end"@[2] == 'x' && "next-word-end"@[3] == 't' && "next-word-end"@[4] == '-' && "next-word-end"@[5] == 'w' && "next-word-end"@[6] == 'o' && "next-word-end"@[7] == 'r' && "next-word-end"@[8] == 'd' && "next-word-end"@[9] == '-' && "next-word-end"@[10] == 'e' && "next-word-end"@[11] == 'n' && "next-word-end"@[12] == 'd',
        "next-space"@.len() == 10 && "next-space"@[0] == 'n' && "next-space"@[1] == 'e' && "next-space"@[2] == 'x' && "next-space"@[3] == 't' && "next-space"@[4] == '-' && "next-space"@[5] == 's' && "next-space"@[6] == 'p' && "next-space"@[7] == 'a' && "next-space"@[8] == 'c' && "next-space"@[9] == 'e',
        "previous-space"@.len() == 14 && "previous-space"@[0] == 'p' && "previous-space"@[1] == 'r' && "previous-space"@[2] == 'e' && "previous-space"@[3] == 'v' && "previous-space"@[4] == 'i' && "previous-space"@[5] == 'o' && "previous-space"@[6] == 'u' && "previous-space"@[7] == 's' && "previous-space"@[8] == '-' && "previous-space"@[9] == 's' && "previous-space"@[10] == 'p' && "previous-space"@[11] == 'a' && "previous-space"@[12] == 'c' && "previous-space"@[13] == 'e',
        "next-space-end"@.len() == 14 && "next-space-end"@[0] == 'n' && "next-space-end"@[1] == 'e' && "next-space-end"@[2] == 'x' && "next-space-end"@[3] == 't' && "next-space-end"@[4] == '-' && "next-space-end"@[5] == 's' && "next-space-end"@[6] == 'p' && "next-space-end"@[7] == 'a' && "next-space-end"@[8] == 'c' && "next-space-end"@[9] == 'e' && "next-space-end"@[10] == '-' && "next-space-end"@[11] == 'e' && "next-space-end"@[12] == 'n' && "next-space-end"@[13] == 'd',
        "top-line"@.len() == 8 && "top-line"@[0] == 't' && "top-line"@[1] == 'o' && "top-line"@[2] == 'p' && "top-line"@[3] == '-' && "top-line"@[4] == 'l' && "top-line"@[5] == 'i' && "top-line"@[6] == 'n' && "top-line"@[7] == 'e',
        "middle-line"@.len() == 11 && "middle-line"@[0] == 'm' && "middle-line"@[1] == 'i' && "middle-line"@[2] == 'd' && "middle-line"@[3] == 'd' && "middle-line"@[4] == 'l' && "middle-line"@[5] == 'e' && "middle-line"@[6] == '-' && "middle-line"@[7] == 'l' && "middle-line"@[8] == 'i' && "middle-line"@[9] == 'n' && "middle-line"@[10] == 'e',
        "bottom-line"@.len() == 11 && "bottom-line"@[0] == 'b' && "bottom-line"@[1] == 'o' && "bottom-line"@[2] == 't' && "bottom-line"@[3] == 't' && "bottom-line"@[4] == 'o' && "bottom-line"@[5] == 'm' && "bottom-line"@[6] == '-' && "bottom-line"@[7] == 'l' && "bottom-line"@[8] == 'i' && "bottom-line"@[9] == 'n' && "bottom-line"@[10] == 'e',
        "history-top"@.len() == 11 && "history-top"@[0] == 'h' && "history-top"@[1] == 'i' && "history-top"@[2] == 's' && "history-top"@[3] == 't' && "history-top"@[4] == 'o' && "history-top"@[5] == 'r' && "history-top"@[6] == 'y' && "history-top"@[7] == '-' && "history-top"@[8] == 't' && "history-top"@[9] == 'o' && "history-top"@[10] == 'p',
        "history-bottom"@.len() == 14 && "history-bottom"@[0] == 'h' && "history-bottom"@[1] == 'i' && "history-bottom"@[2] == 's' && "history-bottom"@[3] == 't' && "history-bottom"@[4] == 'o' && "history-bottom"@[5] == 'r' && "history-bottom"@[6] == 'y' && "history-bottom"@[7] == '-' && "history-bottom"@[8] == 'b' && "history-bottom"@[9] == 'o' && "history-bottom"@[10] == 't' && "history-bottom"@[11] == 't' && "history-bottom"@[12] == 'o' && "history-bottom"@[13] == 'm',
        "halfpage-up"@.len() == 11 && "halfpage-up"@[0] == 'h' && "halfpage-up"@[1] == 'a' && "halfpage-up"@[2] == 'l' && "halfpage-up"@[3] == 'f' && "halfpage-up"@[4] == 'p' && "halfpage-up"@[5] == 'a' && "halfpage-up"@[6] == 'g' && "halfpage-up"@[7] == 'e' && "halfpage-up"@[8] == '-' && "halfpage-up"@[9] == 'u' && "halfpage-up"@[10] == 'p',
        "halfpage-down"@.len() == 13 && "halfpage-down"@[0] == 'h' && "halfpage-down"@[1] == 'a' && "halfpage-down"@[2] == 'l' && "halfpage-down"@[3] == 'f' && "halfpage-down"@[4] == 'p' && "halfpage-down"@[5] == 'a' && "halfpage-down"@[6] == 'g' && "halfpage-down"@[7] == 'e' && "halfpage-down"@[8] == '-' && "halfpage-down"@[9] == 'd' && "halfpage-down"@[10] == 'o' && "halfpage-down"@[11] == 'w' && "halfpage-down"@[12] == 'n',
        "page-up"@.len() == 7 && "page-up"@[0] == 'p' && "page-up"@[1] == 'a' && "page-up"@[2] == 'g' && "page-up"@[3] == 'e' && "page-up"@[4] == '-' && "page-up"@[5] == 'u' && "page-up"@[6] == 'p',
        "page-down"@.len() == 9 && "page-down"@[0] == 'p' && "page-down"@[1] == 'a' && "page-down"@[2] == 'g' && "page-down"@[3] == 'e' && "page-down"@[4] == '-' && "page-down"@[5] == 'd' && "page-down"@[6] == 'o' && "page-down"@[7] == 'w' && "page-down"@[8] == 'n',
        "scroll-up"@.len() == 9 && "scroll-up"@[0] == 's' && "scroll-up"@[1] == 'c' && "scroll-up"@[2] == 'r' && "scroll-up"@[3] == 'o' && "scroll-up"@[4] == 'l' && "scroll-up"@[5] == 'l' && "scroll-up"@[6] == '-' && "scroll-up"@[7] == 'u' && "scroll-up"@[8] == 'p',
        "scroll-down"@.len() == 11 && "scroll-down"@[0] == 's' && "scroll-down"@[1] == 'c' && "scroll-down"@[2] == 'r' && "scroll-down"@[3] == 'o' && "scroll-down"@[4] == 'l' && "scroll-down"@[5] == 'l' && "scroll-down"@[6] == '-' && "scroll-down"@[7] == 'd' && "scroll-down"@[8] == 'o' && "scroll-down"@[9] == 'w' && "scroll-down"@[10] == 'n',
        "search-forward"@.len() == 14 && "search-forward"@[0] == 's' && "search-forward"@[1] == 'e' && "search-forward"@[2] == 'a' && "search-forward"@[3] == 'r' && "search-forward"@[4] == 'c' && "search-forward"@[5] == 'h' && "search-forward"@[6] == '-' && "search-forward"@[7] == 'f' && "search-forward"@[8] == 'o' && "search-forward"@[9] == 'r' && "search-forward"@[10] == 'w' && "search-forward"@[11] == 'a' && "search-forward"@[12] == 'r' && "search-forward"@[13] == 'd',
        "search-forward-incremental"@.len() == 26 && "search-forward-incremental"@[0] == 's' && "search-forward-incremental"@[1] == 'e' && "search-forward-incremental"@[2] == 'a' && "search-forward-incremental"@[3] == 'r' && "search-forward-incremental"@[4] == 'c' && "search-forward-incremental"@[5] == 'h' && "search-forward-incremental"@[6] == '-' && "search-forward-incremental"@[7] == 'f' && "search-forward-incremental"@[8] == 'o' && "search-forward-incremental"@[9] == 'r' && "search-forward-incremental"@[10] == 'w' && "search-forward-incremental"@[11] == 'a' && "search-forward-incremental"@[12] == 'r' && "search-forward-incremental"@[13] == 'd' && "search-forward-incremental"@[14] == '-' && "search-forward-incremental"@[15] == 'i' && "search-forward-incremental"@[16] == 'n' && "search-forward-incremental"@[17] == 'c' && "search-forward-incremental"@[18] == 'r' && "search-forward-incremental"@[19] == 'e' && "search-forward-incremental"@[20] == 'm' && "search-forward-incremental"@[21] == 'e' && "search-forward-incremental"@[22] == 'n' && "search-forward-incremental"@[23] == 't' && "search-forward-incremental"@[24] == 'a' && "search-forward-incremental"@[25] == 'l',
        "search-backward"@.len() == 15 && "search-backward"@[0] == 's' && "search-backward"@[1] == 'e' && "search-backward"@[2] == 'a' && "search-backward"@[3] == 'r' && "search-backward"@[4] == 'c' && "search-backward"@[5] == 'h' && "search-backward"@[6] == '-' && "search-backward"@[7] == 'b' && "search-backward"@[8] == 'a' && "search-backward"@[9] == 'c' && "search-backward"@[10] == 'k' && "search-backward"@[11] == 'w' && "search-backward"@[12] == 'a' && "search-backward"@[13] == 'r' && "search-backward"@[14] == 'd',
        "search-backward-incremental"@.len() == 27 && "search-backward-incremental"@[0] == 's' && "search-backward-incremental"@[1] == 'e' && "search-backward-incremental"@[2] == 'a' && "search-backward-incremental"@[3] == 'r' && "search-backward-incremental"@[4] == 'c' && "search-backward-incremental"@[5] == 'h' && "search-backward-incremental"@[6] == '-' && "search-backward-incremental"@[7] == 'b' && "search-backward-incremental"@[8] == 'a' && "search-backward-incremental"@[9] == 'c' && "search-backward-incremental"@[10] == 'k' && "search-backward-incremental"@[11] == 'w' && "search-backward-incremental"@[12] == 'a' && "search-backward-incremental"@[13] == 'r' && "search-backward-incremental"@[14] == 'd' && "search-backward-incremental"@[15] == '-' && "search-backward-incremental"@[16] == 'i' && "search-backward-incremental"@[17] == 'n' && "search-backward-incremental"@[18] == 'c' && "search-backward-incremental"@[19] == 'r' && "search-backward-incremental"@[20] == 'e' && "search-backward-incremental"@[21] == 'm' && "search-backward-incremental"@[22] == 'e' && "search-backward-incremental"@[23] == 'n' && "search-backward-incremental"@[24] == 't' && "search-backward-incremental"@[25] == 'a' && "search-backward-incremental"@[26] == 'l',
        "search-again"@.len() == 12 && "search-again"@[0] == 's' && "search-again"@[1] == 'e' && "search-again"@[2] == 'a' && "search-again"@[3] == 'r' && "search-again"@[4] == 'c' && "search-again"@[5] == 'h' && "search-again"@[6] == '-' && "search-again"@[7] == 'a' && "search-again"@[8] == 'g' && "search-again"@[9] == 'a' && "search-again"@[10] == 'i' && "search-again"@[11] == 'n',
        "search-reverse"@.len() == 14 && "search-reverse"@[0] == 's' && "search-reverse"@[1] == 'e' && "search-reverse"@[2] == 'a' && "search-reverse"@[3] == 'r' && "search-reverse"@[4] == 'c' && "search-reverse"@[5] == 'h' && "search-reverse"@[6] == '-' && "search-reverse"@[7] == 'r' && "search-reverse"@[8] == 'e' && "search-reverse"@[9] == 'v' && "search-reverse"@[10] == 'e' && "search-reverse"@[11] == 'r' && "search-reverse"@[12] == 's' && "search-reverse"@[13] == 'e',
        "copy-end-of-line"@.len() == 16 && "copy-end-of-line"@[0] == 'c' && "copy-end-of-line"@[1] == 'o' && "copy-end-of-line"@[2] == 'p' && "copy-end-of-line"@[3] == 'y' && "copy-end-of-line"@[4] == '-' && "copy-end-of-line"@[5] == 'e' && "copy-end-of-line"@[6] == 'n' && "copy-end-of-line"@[7] == 'd' && "copy-end-of-line"@[8] == '-' && "copy-end-of-line"@[9] == 'o' && "copy-end-of-line"@[10] == 'f' && "copy-end-of-line"@[11] == '-' && "copy-end-of-line"@[12] == 'l' && "copy-end-of-line"@[13] == 'i' && "copy-end-of-line"@[14] == 'n' && "copy-end-of-line"@[15] == 'e',
        "select-word"@.len() == 11 && "select-word"@[0] == 's' && "select-word"@[1] == 'e' && "select-word"@[2] == 'l' && "select-word"@[3] == 'e' && "select-word"@[4] == 'c' && "select-word"@[5] == 't' && "select-word"@[6] == '-' && "select-word"@[7] == 'w' && "select-word"@[8] == 'o' && "select-word"@[9] == 'r' && "select-word"@[10] == 'd',
        "other-end"@.len() == 9 && "other-end"@[0] == 'o' && "other-end"@[1] == 't' && "other-end"@[2] == 'h' && "other-end"@[3] == 'e' && "other-end"@[4] == 'r' && "other-end"@[5] == '-' && "other-end"@[6] == 'e' && "other-end"@[7] == 'n' && "other-end"@[8] == 'd',
        "clear-selection"@.len() == 15 && "clear-selection"@[0] == 'c' && "clear-selection"@[1] == 'l' && "clear-selection"@[2] == 'e' && "clear-selection"@[3] == 'a' && "clear-selection"@[4] == 'r' && "clear-selection"@[5] == '-' && "clear-selection"@[6] == 's' && "clear-selection"@[7] == 'e' && "clear-selection"@[8] == 'l' && "clear-selection"@[9] == 'e' && "clear-selection"@[10] == 'c' && "clear-selection"@[11] == 't' && "clear-selection"@[12] == 'i' && "clear-selection"@[13] == 'o' && "clear-selection"@[14] == 'n',
        "append-selection"@.len() == 16 && "append-selection"@[0] == 'a' && "append-selection"@[1] == 'p' && "append-selection"@[2] == 'p' && "append-selection"@[3] == 'e' && "append-selection"@[4] == 'n' && "append-selection"@[5] == 'd' && "append-selection"@[6] == '-' && "append-selection"@[7] == 's' && "append-selection"@[8] == 'e' && "append-selection"@[9] == 'l' && "append-selection"@[10] == 'e' && "append-selection"@[11] == 'c' && "append-selection"@[12] == 't' && "append-selection"@[13] == 'i' && "append-selection"@[14] == 'o' && "append-selection"@[15] == 'n',
        "append-selection-and-cancel"@.len() == 27 && "append-selection-and-cancel"@[0] == 'a' && "append-selection-and-cancel"@[1] == 'p' && "append-selection-and-cancel"@[2] == 'p' && "append-selection-and-cancel"@[3] == 'e' && "append-selection-and-cancel"@[4] == 'n' && "append-selection-and-cancel"@[5] == 'd' && "append-selection-and-cancel"@[6] == '-' && "append-selection-and-cancel"@[7] == 's' && "append-selection-and-cancel"@[8] == 'e' && "append-selection-and-cancel"@[9] == 'l' && "append-selection-and-cancel"@[10] == 'e' && "append-selection-and-cancel"@[11] == 'c' && "append-selection-and-cancel"@[12] == 't' && "append-selection-and-cancel"@[13] == 'i' && "append-selection-and-cancel"@[14] == 'o' && "append-selection-and-cancel"@[15] == 'n' && "append-selection-and-cancel"@[16] == '-' && "append-selection-and-cancel"@[17] == 'a' && "append-selection-and-cancel"@[18] == 'n' && "append-selection-and-cancel"@[19] == 'd' && "append-selection-and-cancel"@[20] == '-' && "append-selection-and-cancel"@[21] == 'c' && "append-selection-and-cancel"@[22] == 'a' && "append-selection-and-cancel"@[23] == 'n' && "append-selection-and-cancel"@[24] == 'c' && "append-selection-and-cancel"@[25] == 'e' && "append-selection-and-cancel"@[26] == 'l',
        "copy-line"@.len() == 9 && "copy-line"@[0] == 'c' && "copy-line"@[1] == 'o' && "copy-line"@[2] == 'p' && "copy-line"@[3] == 'y' && "copy-line"@[4] == '-' && "copy-line"@[5] == 'l' && "copy-line"@[6] == 'i' && "copy-line"@[7] == 'n' && "copy-line"@[8] == 'e',
        "goto-line"@.len() == 9 && "goto-line"@[0] == 'g' && "goto-line"@[1] == 'o' && "goto-line"@[2] == 't' && "goto-line"@[3] == 'o' && "goto-line"@[4] == '-' && "goto-line"@[5] == 'l' && "goto-line"@[6] == 'i' && "goto-line"@[7] == 'n' && "goto-line"@[8] == 'e',
        "jump-forward"@.len() == 12 && "jump-forward"@[0] == 'j' && "jump-forward"@[1] == 'u' && "jump-forward"@[2] == 'm' && "jump-forward"@[3] == 'p' && "jump-forward"@[4] == '-' && "jump-forward"@[5] == 'f' && "jump-forward"@[6] == 'o' && "jump-forward"@[7] == 'r' && "jump-forward"@[8] == 'w' && "jump-forward"@[9] == 'a' && "jump-forward"@[10] == 'r' && "jump-forward"@[11] == 'd',
        "jump-backward"@.len() == 13 && "jump-backward"@[0] == 'j' && "jump-backward"@[1] == 'u' && "jump-backward"@[2] == 'm' && "jump-backward"@[3] == 'p' && "jump-backward"@[4] == '-' && "jump-backward"@[5] == 'b' && "jump-backward"@[6] == 'a' && "jump-backward"@[7] == 'c' && "jump-backward"@[8] == 'k' && "jump-backward"@[9] == 'w' && "jump-backward"@[10] == 'a' && "jump-backward"@[11] == 'r' && "jump-backward"@[12] == 'd',
        "jump-to-forward"@.len() == 15 && "jump-to-forward"@[0] == 'j' && "jump-to-forward"@[1] == 'u' && "jump-to-forward"@[2] == 'm' && "jump-to-forward"@[3] == 'p' && "jump-to-forward"@[4] == '-' && "jump-to-forward"@[5] == 't' && "jump-to-forward"@[6] == 'o' && "jump-to-forward"@[7] == '-' && "jump-to-forward"@[8] == 'f' && "jump-to-forward"@[9] == 'o' && "jump-to-forward"@[10] == 'r' && "jump-to-forward"@[11] == 'w' && "jump-to-forward"@[12] == 'a' && "jump-to-forward"@[13] == 'r' && "jump-to-forward"@[14] == 'd',
        "jump-to-backward"@.len() == 16 && "jump-to-backward"@[0] == 'j' && "jump-to-backward"@[1] == 'u' && "jump-to-backward"@[2] == 'm' && "jump-to-backward"@[3] == 'p' && "jump-to-backward"@[4] == '-' && "jump-to-backward"@[5] == 't' && "jump-to-backward"@[6] == 'o' && "jump-to-backward"@[7] == '-' && "jump-to-backward"@[8] == 'b' && "jump-to-backward"@[9] == 'a' && "jump-to-backward"@[10] == 'c' && "jump-to-backward"@[11] == 'k' && "jump-to-backward"@[12] == 'w' && "jump-to-backward"@[13] == 'a' && "jump-to-backward"@[14] == 'r' && "jump-to-backward"@[15] == 'd',
        "next-paragraph"@.len() == 14 && "next-paragraph"@[0] == 'n' && "next-paragraph"@[1] == 'e' && "next-paragraph"@[2] == 'x' && "next-paragraph"@[3] == 't' && "next-paragraph"@[4] == '-' && "next-paragraph"@[5] == 'p' && "next-paragraph"@[6] == 'a' && "next-paragraph"@[7] == 'r' && "next-paragraph"@[8] == 'a' && "next-paragraph"@[9] == 'g' && "next-paragraph"@[10] == 'r' && "next-paragraph"@[11] == 'a' && "next-paragraph"@[12] == 'p' && "next-paragraph"@[13] == 'h',
        "previous-paragraph"@.len() == 18 && "previous-paragraph"@[0] == 'p' && "previous-paragraph"@[1] == 'r' && "previous-paragraph"@[2] == 'e' && "previous-paragraph"@[3] == 'v' && "previous-paragraph"@[4] == 'i' && "previous-paragraph"@[5] == 'o' && "previous-paragraph"@[6] == 'u' && "previous-paragraph"@[7] == 's' && "previous-paragraph"@[8] == '-' && "previous-paragraph"@[9] == 'p' && "previous-paragraph"@[10] == 'a' && "previous-paragraph"@[11] == 'r' && "previous-paragraph"@[12] == 'a' && "previous-paragraph"@[13] == 'g' && "previous-paragraph"@[14] == 'r' && "previous-paragraph"@[15] == 'a' && "previous-paragraph"@[16] == 'p' && "previous-paragraph"@[17] == 'h',
        "next-matching-bracket"@.len() == 21 && "next-matching-bracket"@[0] == 'n' && "next-matching-bracket"@[1] == 'e' && "next-matching-bracket"@[2] == 'x' && "next-matching-bracket"@[3] == 't' && "next-matching-bracket"@[4] == '-' && "next-matching-bracket"@[5] == 'm' && "next-matching-bracket"@[6] == 'a' && "next-matching-bracket"@[7] == 't' && "next-matching-bracket"@[8] == 'c' && "next-matching-bracket"@[9] == 'h' && "next-matching-bracket"@[10] == 'i' && "next-matching-bracket"@[11] == 'n' && "next-matching-bracket"@[12] == 'g' && "next-matching-bracket"@[13] == '-' && "next-matching-bracket"@[14] == 'b' && "next-matching-bracket"@[15] == 'r' && "next-matching-bracket"@[16] == 'a' && "next-matching-bracket"@[17] == 'c' && "next-matching-bracket"@[18] == 'k' && "next-matching-bracket"@[19] == 'e' && "next-matching-bracket"@[20] == 't',
        "stop-selection"@.len() == 14 && "stop-selection"@[0] == 's' && "stop-selection"@[1] == 't' && "stop-selection"@[2] == 'o' && "stop-selection"@[3] == 'p' && "stop-selection"@[4] == '-' && "stop-selection"@[5] == 's' && "stop-selection"@[6] == 'e' && "stop-selection"@[7] == 'l' && "stop-selection"@[8] == 'e' && "stop-selection"@[9] == 'c' && "stop-selection"@[10] == 't' && "stop-selection"@[11] == 'i' && "stop-selection"@[12] == 'o' && "stop-selection"@[13] == 'n',
{
    reveal_strlit("cancel");
    reveal_strlit("begin-selection");
    reveal_strlit("select-line");
    reveal_strlit("rectangle-toggle");
    reveal_strlit("copy-selection");
    reveal_strlit("copy-selection-no-clear");
    reveal_strlit("copy-selection-and-cancel");
    reveal_strlit("copy-pipe");
    reveal_strlit("cursor-up");
    reveal_strlit("cursor-down");
    reveal_strlit("cursor-left");
    reveal_strlit("cursor-right");
    reveal_strlit("start-of-line");
    reveal_strlit("end-of-line");
    reveal_strlit("back-to-indentation");
    reveal_strlit("next-word");
    reveal_strlit("previous-word");
    reveal_strlit("next-word-end");
    reveal_strlit("next-space");
    reveal_strlit("previous-space");
    reveal_strlit("next-space-end");
    reveal_strlit("top-line");
    reveal_strlit("middle-line");
    reveal_strlit("bottom-line");
    reveal_strlit("history-top");
    reveal_strlit("history-bottom");
    reveal_strlit("halfpage-up");
    reveal_strlit("halfpage-down");
    reveal_strlit("page-up");
    reveal_strlit("page-down");
    reveal_strlit("scroll-up");
    reveal_strlit("scroll-down");
    reveal_strlit("search-forward");
    reveal_strlit("search-forward-incremental");
    reveal_strlit("search-backward");
    reveal_strlit("search-backward-incremental");
    reveal_strlit("search-again");
    reveal_strlit("search-reverse");
    reveal_strlit("copy-end-of-line");
    reveal_strlit("select-word");
    reveal_strlit("other-end");
    reveal_strlit("clear-selection");
    reveal_strlit("append-selection");
    reveal_strlit("append-selection-and-cancel");
    reveal_strlit("copy-line");
    reveal_strlit("goto-line");
    reveal_strlit("jump-forward");
    reveal_strlit("jump-backward");
    reveal_strlit("jump-to-forward");
    reveal_strlit("jump-to-backward");
    reveal_strlit("next-paragraph");
    reveal_strlit("previous-paragraph");
    reveal_strlit("next-matching-bracket");
    reveal_strlit("stop-selection");
}

/// The steps that end copying, with the selection kept for the next time.
pub open spec fn leaving() -> Seq<CopyStep> {
    seq![CopyStep::Leave { forget_anchor: false }, CopyStep::Hook(CopyHook::Mode)]
}

/// Whether a command copies what is selected.
pub open spec fn copies_selection(w: Seq<char>, has_cursor: bool) -> bool {
    ||| w == "copy-selection"@ || w == "copy-selection-no-clear"@ || w == "copy-selection-and-cancel"@
    ||| w == "append-selection"@ || w == "append-selection-and-cancel"@
    ||| has_prefix(w, "copy-pipe"@)
    ||| w == "copy-line"@ && has_cursor
}

/// Whether a command ends copying.
pub open spec fn ends_copying(w: Seq<char>) -> bool {
    ||| w == "cancel"@ || w == "copy-line"@ || w == "copy-end-of-line"@
    ||| w == "copy-selection-and-cancel"@ || w == "append-selection-and-cancel"@
    ||| has_prefix(w, "copy-pipe"@) && has_substring(w, "cancel"@)
}

proof fn lemma_not_prefixed(w: Seq<char>)
    ensures
        has_prefix(w, "copy-pipe"@) ==> w.len() >= 9 && w[0] == 'c' && w[5] == 'p' && w[6] == 'i',
        has_prefix(w, "goto-line"@) ==> w.len() >= 9 && w[0] == 'g' && w[1] == 'o' && w[2] == 't',
{
    lemma_words();
    if has_prefix(w, "copy-pipe"@) {
        let t = w.take(9);
        assert(t[0] == w[0] && t[5] == w[5] && t[6] == w[6]);
    }
    if has_prefix(w, "goto-line"@) {
        let t = w.take(9);
        assert(t[0] == w[0] && t[1] == w[1] && t[2] == w[2]);
    }
}

/// A command that copies what is selected copies it once and runs the hook of the clipboard right
/// afterwards; one that does not copies nothing and runs no such hook.
pub proof fn selection_is_copied_once(w: Seq<char>, half: usize, has_cursor: bool)
    ensures
        ({
            let s = command_steps(w, half, has_cursor);
            &&& copies_selection(w, has_cursor) == s.contains(CopyStep::Yank)
            &&& copies_selection(w, has_cursor) == s.contains(CopyStep::Hook(CopyHook::Clipboard))
            &&& forall|i: int, j: int|
                0 <= i < s.len() && 0 <= j < s.len() && #[trigger] s[i] == CopyStep::Yank && #[trigger] s[j]
                    == CopyStep::Yank ==> i == j
            &&& forall|i: int, j: int|
                0 <= i < s.len() && 0 <= j < s.len() && #[trigger] s[i] == CopyStep::Yank && #[trigger] s[j]
                    == CopyStep::Hook(CopyHook::Clipboard) ==> j == i + 1
        }),
{
    lemma_words();
    lemma_not_prefixed(w);
    let s = command_steps(w, half, has_cursor);
    if copies_selection(w, has_cursor) {
        let i = if w == "copy-line"@ {
            1int
        } else {
            0
        };
        assert(s[i] == CopyStep::Yank);
        assert(s[i + 1] == CopyStep::Hook(CopyHook::Clipboard));
    }
}

/// A command that ends copying does so once, after what it copies and before the hook of the mode;
/// one that does not never leaves.
pub proof fn copying_ends_after_the_copy(w: Seq<char>, half: usize, has_cursor: bool)
    ensures
        ({
            let s = command_steps(w, half, has_cursor);
            &&& ends_copying(w) == (exists|i: int| 0 <= i < s.len() && #[trigger] s[i] is Leave)
            &&& s.contains(CopyStep::Hook(CopyHook::Mode)) == (ends_copying(w) && w != "copy-end-of-line"@)
            &&& forall|i: int, j: int|
                0 <= i < s.len() && 0 <= j < s.len() && #[trigger] s[i] is Leave && #[trigger] s[j] is Leave
                    ==> i == j
            &&& forall|i: int, j: int|
                0 <= i < s.len() && 0 <= j < s.len() && #[trigger] s[i] is Leave && (#[trigger] s[j]
                    == CopyStep::Yank || s[j] == CopyStep::CopyEndOfLine || s[j] is Pipe || s[j]
                    is AppendBuffers || s[j] == CopyStep::Hook(CopyHook::Clipboard)) ==> j < i
            &&& forall|i: int, j: int|
                0 <= i < s.len() && 0 <= j < s.len() && #[trigger] s[i] is Leave && #[trigger] s[j]
                    == CopyStep::Hook(CopyHook::Mode) ==> i < j
        }),
{
    lemma_words();
    lemma_not_prefixed(w);
    let s = command_steps(w, half, has_cursor);
    if has_prefix(w, "copy-pipe"@) {
        if has_substring(w, "cancel"@) {
            assert(s[s.len() - 2] is Leave);
            assert(s[s.len() - 1] == CopyStep::Hook(CopyHook::Mode));
        }
    } else if w == "cancel"@ {
        assert(s[0] is Leave);
        assert(s[2] == CopyStep::Hook(CopyHook::Mode));
    } else if w == "copy-end-of-line"@ {
        assert(s[1] is Leave);
    } else if ends_copying(w) {
        assert(s[s.len() - 2] is Leave);
        assert(s[s.len() - 1] == CopyStep::Hook(CopyHook::Mode));
    }
}

/// A command that also cancels does what the command without that does, and then ends copying.
pub proof fn cancelling_comes_last(half: usize, has_cursor: bool)
    ensures
        command_steps("copy-selection-and-cancel"@, half, has_cursor) == command_steps(
            "copy-selection"@,
            half,
            has_cursor,
        ) + leaving(),
        command_steps("append-selection-and-cancel"@, half, has_cursor) == command_steps(
            "append-selection"@,
            half,
            has_cursor,
        ) + leaving(),
        command_steps("copy-selection-no-clear"@, half, has_cursor) == command_steps(
            "copy-selection"@,
            half,
            has_cursor,
        ),
        command_steps("append-selection"@, half, has_cursor) == command_steps(
            "copy-selection"@,
            half,
            has_cursor,
        ).push(CopyStep::AppendBuffers),
        command_steps("copy-line"@, half, true) == seq![CopyStep::SelectLine] + command_steps(
            "copy-selection-and-cancel"@,
            half,
            true,
        ),
        command_steps("copy-line"@, half, false) == leaving(),
        command_steps("copy-end-of-line"@, half, has_cursor) == seq![
            CopyStep::CopyEndOfLine,
            CopyStep::Leave { forget_anchor: false },
        ],
{
    lemma_words();
    lemma_not_prefixed("copy-selection-and-cancel"@);
    lemma_not_prefixed("copy-selection"@);
    lemma_not_prefixed("copy-selection-no-clear"@);
    lemma_not_prefixed("append-selection-and-cancel"@);
    lemma_not_prefixed("append-selection"@);
    lemma_not_prefixed("copy-line"@);
    lemma_not_prefixed("copy-end-of-line"@);
    let copy = command_steps("copy-selection"@, half, has_cursor);
    let more = command_steps("append-selection"@, half, has_cursor);
    assert(command_steps("copy-selection-and-cancel"@, half, has_cursor) =~= copy + leaving());
    assert(more =~= copy.push(CopyStep::AppendBuffers));
    assert(command_steps("append-selection-and-cancel"@, half, has_cursor) =~= more + leaving());
    assert(command_steps("copy-line"@, half, true) =~= seq![CopyStep::SelectLine] + (copy + leaving()));
    assert(command_steps("copy-line"@, half, false) =~= leaving());
}

/// A command that hands the text on copies it first as `copy-selection` does, then runs the program
/// where one is named, and then ends copying where it says so.
pub proof fn text_is_copied_before_it_is_handed_on(w: Seq<char>, half: usize, has_cursor: bool)
    requires
        has_prefix(w, "copy-pipe"@),
    ensures
        command_steps(w, half, has_cursor) == command_steps("copy-selection"@, half, has_cursor) + (
        if pipe_program(w).len() > 0 {
            seq![CopyStep::Pipe]
        } else {
            Seq::empty()
        }) + (if has_substring(w, "cancel"@) {
            leaving()
        } else {
            Seq::empty()
        }),
{
    lemma_words();
    lemma_not_prefixed(w);
    lemma_not_prefixed("copy-selection"@);
    assert(command_steps(w, half, has_cursor) =~= command_steps("copy-selection"@, half, has_cursor) + (
    if pipe_program(w).len() > 0 {
        seq![CopyStep::Pipe]
    } else {
        Seq::empty()
    }) + (if has_substring(w, "cancel"@) {
        leaving()
    } else {
        Seq::empty()
    }));
}

/// A command that is not in copying yet begins it first, and is then the same command.
pub proof fn copying_begins_first(w: Seq<char>, half: usize, has_cursor: bool)
    ensures
        all_steps(w, false, half, has_cursor) == seq![CopyStep::Enter] + all_steps(
            w,
            true,
            half,
            has_cursor,
        ),
        all_steps(w, true, half, has_cursor) == command_steps(w, half, has_cursor),
{
    assert(all_steps(w, true, half, has_cursor) =~= command_steps(w, half, has_cursor));
}

/// Each motion is made by the command that is named after it, and by one step.
pub proof fn motions_go_by_their_names(half: usize, has_cursor: bool)
    ensures
        command_steps("cursor-up"@, half, has_cursor) == seq![CopyStep::Move(Motion::Up)],
        command_steps("cursor-down"@, half, has_cursor) == seq![CopyStep::Move(Motion::Down)],
        command_steps("cursor-left"@, half, has_cursor) == seq![CopyStep::Move(Motion::Left)],
        command_steps("cursor-right"@, half, has_cursor) == seq![CopyStep::Move(Motion::Right)],
        command_steps("start-of-line"@, half, has_cursor) == seq![CopyStep::Move(Motion::LineStart)],
        command_steps("end-of-line"@, half, has_cursor) == seq![CopyStep::Move(Motion::LineEnd)],
        command_steps("back-to-indentation"@, half, has_cursor) == seq![CopyStep::Move(Motion::FirstNonblank)],
        command_steps("next-word"@, half, has_cursor) == seq![CopyStep::Move(Motion::WordForward)],
        command_steps("previous-word"@, half, has_cursor) == seq![CopyStep::Move(Motion::WordBackward)],
        command_steps("next-word-end"@, half, has_cursor) == seq![CopyStep::Move(Motion::WordEnd)],
        command_steps("next-space"@, half, has_cursor) == seq![CopyStep::Move(Motion::SpaceForward)],
        command_steps("previous-space"@, half, has_cursor) == seq![CopyStep::Move(Motion::SpaceBackward)],
        command_steps("next-space-end"@, half, has_cursor) == seq![CopyStep::Move(Motion::SpaceEnd)],
        command_steps("top-line"@, half, has_cursor) == seq![CopyStep::Move(Motion::ScreenTop)],
        command_steps("middle-line"@, half, has_cursor) == seq![CopyStep::Move(Motion::ScreenMiddle)],
        command_steps("bottom-line"@, half, has_cursor) == seq![CopyStep::Move(Motion::ScreenBottom)],
        command_steps("history-top"@, half, has_cursor) == seq![CopyStep::Move(Motion::HistoryTop)],
        command_steps("history-bottom"@, half, has_cursor) == seq![CopyStep::Move(Motion::HistoryBottom)],
        command_steps("next-paragraph"@, half, has_cursor) == seq![CopyStep::Move(Motion::NextParagraph)],
        command_steps("previous-paragraph"@, half, has_cursor) == seq![CopyStep::Move(Motion::PreviousParagraph)],
        command_steps("next-matching-bracket"@, half, has_cursor) == seq![CopyStep::Move(Motion::MatchingBracket)],
{
    lemma_words();
    lemma_not_prefixed("cursor-up"@);
    lemma_not_prefixed("cursor-down"@);
    lemma_not_prefixed("cursor-left"@);
    lemma_not_prefixed("cursor-right"@);
    lemma_not_prefixed("start-of-line"@);
    lemma_not_prefixed("end-of-line"@);
    lemma_not_prefixed("back-to-indentation"@);
    lemma_not_prefixed("next-word"@);
    lemma_not_prefixed("previous-word"@);
    lemma_not_prefixed("next-word-end"@);
    lemma_not_prefixed("next-space"@);
    lemma_not_prefixed("previous-space"@);
    lemma_not_prefixed("next-space-end"@);
    lemma_not_prefixed("top-line"@);
    lemma_not_prefixed("middle-line"@);
    lemma_not_prefixed("bottom-line"@);
    lemma_not_prefixed("history-top"@);
    lemma_not_prefixed("history-bottom"@);
    lemma_not_prefixed("next-paragraph"@);
    lemma_not_prefixed("previous-paragraph"@);
    lemma_not_prefixed("next-matching-bracket"@);
}

/// Two commands never make the same motion alone.
pub proof fn motions_are_told_apart(a: Seq<char>, b: Seq<char>, half: usize, has_cursor: bool)
    requires
        command_steps(a, half, has_cursor).len() == 1,
        command_steps(a, half, has_cursor)[0] is Move,
        command_steps(a, half, has_cursor) == command_steps(b, half, has_cursor),
    ensures
        a == b,
{
    lemma_words();
    lemma_not_prefixed(a);
    lemma_not_prefixed(b);
    let s = command_steps(a, half, has_cursor);
    let t = command_steps(b, half, has_cursor);
    assert(s[0] == t[0]);
}

/// Scrolling goes by lines, by half the pane or by twenty lines, and down as far as up.
pub proof fn scrolling_goes_by_its_amount(half: usize, has_cursor: bool)
    ensures
        command_steps("scroll-up"@, half, has_cursor) == seq![CopyStep::ScrollUp { lines: 1 }],
        command_steps("scroll-down"@, half, has_cursor) == seq![CopyStep::ScrollDown { lines: 1 }],
        command_steps("page-up"@, half, has_cursor) == seq![CopyStep::ScrollUp { lines: 20 }],
        command_steps("page-down"@, half, has_cursor) == seq![CopyStep::ScrollDown { lines: 20 }],
        command_steps("halfpage-up"@, half, has_cursor) == seq![CopyStep::ScrollUp { lines: half }],
        command_steps("halfpage-down"@, half, has_cursor) == seq![CopyStep::ScrollDown { lines: half }],
{
    lemma_words();
    lemma_not_prefixed("scroll-up"@);
    lemma_not_prefixed("scroll-down"@);
    lemma_not_prefixed("page-up"@);
    lemma_not_prefixed("page-down"@);
    lemma_not_prefixed("halfpage-up"@);
    lemma_not_prefixed("halfpage-down"@);
}

/// Looking for text goes the way that the command names, and so does going on.
pub proof fn searching_goes_its_way(half: usize, has_cursor: bool)
    ensures
        command_steps("search-forward"@, half, has_cursor) == seq![CopyStep::Search { forward: true }],
        command_steps("search-forward-incremental"@, half, has_cursor) == seq![
            CopyStep::Search { forward: true },
        ],
        command_steps("search-backward"@, half, has_cursor) == seq![CopyStep::Search { forward: false }],
        command_steps("search-backward-incremental"@, half, has_cursor) == seq![
            CopyStep::Search { forward: false },
        ],
        command_steps("search-again"@, half, has_cursor) == seq![CopyStep::SearchNext],
        command_steps("search-reverse"@, half, has_cursor) == seq![CopyStep::SearchPrevious],
{
    lemma_words();
    lemma_not_prefixed("search-forward"@);
    lemma_not_prefixed("search-forward-incremental"@);
    lemma_not_prefixed("search-backward"@);
    lemma_not_prefixed("search-backward-incremental"@);
    lemma_not_prefixed("search-again"@);
    lemma_not_prefixed("search-reverse"@);
}

/// A jump tells which way it goes, and whether it stops before the character: the four kinds
/// differ in these two.
pub proof fn jumps_tell_their_kind(half: usize, has_cursor: bool)
    ensures
        command_steps("jump-forward"@, half, has_cursor) == seq![CopyStep::FindChar { kind: 0 }],
        command_steps("jump-backward"@, half, has_cursor) == seq![CopyStep::FindChar { kind: 1 }],
        command_steps("jump-to-forward"@, half, has_cursor) == seq![CopyStep::FindChar { kind: 2 }],
        command_steps("jump-to-backward"@, half, has_cursor) == seq![CopyStep::FindChar { kind: 3 }],
{
    lemma_words();
    lemma_not_prefixed("jump-forward"@);
    lemma_not_prefixed("jump-backward"@);
    lemma_not_prefixed("jump-to-forward"@);
    lemma_not_prefixed("jump-to-backward"@);
}

/// A selection that is begun has both ends where the cursor is, takes in what the command says, and
/// is gone once it is cleared.
pub proof fn selections_begin_at_the_cursor(
    s: CopyState,
    half: usize,
    has_cursor: bool,
    here: Place,
    cols: u16,
)
    ensures
        ({
            let begun = after_steps(
                s,
                command_steps("begin-selection"@, half, has_cursor),
                Some(here),
                cols,
            );
            begun == (CopyState {
                anchor: Some(here),
                anchor_scroll: s.scroll,
                cursor: Some(here),
                selection: SelectionMode::Char,
                ..s
            })
        }),
        ({
            let begun = after_steps(s, command_steps("select-line"@, half, has_cursor), Some(here), cols);
            begun == (CopyState {
                anchor: Some(here),
                anchor_scroll: s.scroll,
                cursor: Some(here),
                selection: SelectionMode::Line,
                ..s
            })
        }),
        after_steps(s, command_steps("clear-selection"@, half, has_cursor), Some(here), cols) == (
        CopyState { anchor: None, selection: SelectionMode::Char, ..s }),
        after_steps(s, command_steps("stop-selection"@, half, has_cursor), Some(here), cols) == (
        CopyState { anchor: None, ..s }),
        after_steps(s, command_steps("other-end"@, half, has_cursor), Some(here), cols) == (
        if s.anchor is Some && s.cursor is Some {
            CopyState { anchor: s.cursor, anchor_scroll: s.scroll, cursor: s.anchor, ..s }
        } else {
            s
        }),
{
    lemma_words();
    lemma_not_prefixed("begin-selection"@);
    lemma_not_prefixed("select-line"@);
    lemma_not_prefixed("clear-selection"@);
    lemma_not_prefixed("stop-selection"@);
    lemma_not_prefixed("other-end"@);
    lemma_one_step(s, command_steps("begin-selection"@, half, has_cursor), Some(here), cols);
    lemma_one_step(s, command_steps("select-line"@, half, has_cursor), Some(here), cols);
    lemma_one_step(s, command_steps("clear-selection"@, half, has_cursor), Some(here), cols);
    lemma_one_step(s, command_steps("stop-selection"@, half, has_cursor), Some(here), cols);
    lemma_one_step(s, command_steps("other-end"@, half, has_cursor), Some(here), cols);
}

proof fn lemma_one_step(s: CopyState, steps: Seq<CopyStep>, here: Option<Place>, cols: u16)
    requires
        steps.len() == 1,
    ensures
        after_steps(s, steps, here, cols) == after_step(s, steps[0], here, cols),
{
    reveal_with_fuel(after_steps, 2);
    assert(steps.drop_last().len() == 0);
}

/// Selecting a word goes back to its begin, starts a selection there and goes on to its end.
pub proof fn word_is_selected_from_its_begin(half: usize, has_cursor: bool)
    ensures
        command_steps("select-word"@, half, has_cursor) == command_steps(
            "previous-word"@,
            half,
            has_cursor,
        ) + seq![CopyStep::Anchor { selection: SelectionMode::Char, move_cursor: false }] + command_steps(
            "next-word-end"@,
            half,
            has_cursor,
        ),
{
    lemma_words();
    lemma_not_prefixed("select-word"@);
    lemma_not_prefixed("previous-word"@);
    lemma_not_prefixed("next-word-end"@);
    assert(command_steps("select-word"@, half, has_cursor) =~= command_steps(
        "previous-word"@,
        half,
        has_cursor,
    ) + seq![CopyStep::Anchor { selection: SelectionMode::Char, move_cursor: false }] + command_steps(
        "next-word-end"@,
        half,
        has_cursor,
    ));
}

/// Toggling the rectangle twice leaves a selection of characters or a rectangle as it was, and once
/// makes one of the other.
pub proof fn rectangle_toggles(s: CopyState, half: usize, has_cursor: bool, here: Option<Place>, cols: u16)
    ensures
        ({
            let steps = command_steps("rectangle-toggle"@, half, has_cursor);
            let once = after_steps(s, steps, here, cols);
            let twice = after_steps(once, steps, here, cols);
            &&& (once.selection == SelectionMode::Rect) == (s.selection != SelectionMode::Rect)
            &&& once == (CopyState { selection: once.selection, ..s })
            &&& s.selection != SelectionMode::Line ==> twice == s
        }),
{
    lemma_words();
    lemma_not_prefixed("rectangle-toggle"@);
    let steps = command_steps("rectangle-toggle"@, half, has_cursor);
    lemma_one_step(s, steps, here, cols);
    lemma_one_step(after_steps(s, steps, here, cols), steps, here, cols);
}

proof fn lemma_number_is_trimmed(n: nat)
    ensures
        trimmed(seq![' '] + decimal(n)) == decimal(n),
{
    let d = decimal(n);
    lemma_decimal_digits(n);
    let s = seq![' '] + d;
    assert(is_digit(d[0]) && is_digit(d[d.len() - 1]));
    assert(s.skip(1) =~= d);
    reveal_with_fuel(trimmed_start, 3);
    reveal_with_fuel(trimmed_end, 3);
    assert(trimmed_start(s) =~= d);
    assert(trimmed_end(s) =~= s);
    assert(trimmed_end(d) =~= d);
}

/// A command that goes to a line goes to the line that it names, at its begin.
pub proof fn line_is_gone_to(
    s: CopyState,
    n: u16,
    half: usize,
    has_cursor: bool,
    here: Option<Place>,
    cols: u16,
)
    ensures
        ({
            let w = "goto-line"@ + seq![' '] + decimal(n as nat);
            after_steps(s, command_steps(w, half, has_cursor), here, cols) == (CopyState {
                cursor: Some(Place { row: n, col: 0 }),
                ..s
            })
        }),
{
    lemma_words();
    let w = "goto-line"@ + seq![' '] + decimal(n as nat);
    lemma_not_prefixed(w);
    assert(w.take(9) =~= "goto-line"@);
    assert(has_prefix(w, "goto-line"@));
    lemma_not_prefixed(w);
    assert(w.skip(9) =~= seq![' '] + decimal(n as nat));
    lemma_number_is_trimmed(n as nat);
    decimal_reads_back(n as nat, 0xFFFF);
    assert(w[0] == 'g');
    lemma_one_step(s, command_steps(w, half, has_cursor), here, cols);
}

/// Once a command has ended copying, nothing is being copied and the screen is not scrolled;
/// only cancelling forgets where the selection began.
pub proof fn ended_copying_is_off(s: CopyState, forget_anchor: bool, here: Option<Place>, cols: u16)
    ensures
        after_step(s, CopyStep::Leave { forget_anchor }, here, cols) == (CopyState {
            mode: CopyMode::Off,
            anchor: if forget_anchor {
                None
            } else {
                s.anchor
            },
            cursor: None,
            scroll: 0,
            ..s
        }),
{
}

/// Cancelling ends copying, forgets where the selection began and shows the screen where it is not
/// scrolled.
pub proof fn cancel_leaves_and_scrolls_back(half: usize, has_cursor: bool)
    ensures
        command_steps("cancel"@, half, has_cursor) == seq![
            CopyStep::Leave { forget_anchor: true },
            CopyStep::ResetScrollback,
            CopyStep::Hook(CopyHook::Mode),
        ],
{
}

/// Selecting a line takes in all of the cursor's line.
pub proof fn line_is_selected_from_end_to_end(s: CopyState, here: Place, cols: u16)
    requires
        cols > 0,
    ensures
        after_step(s, CopyStep::SelectLine, Some(here), cols) == (CopyState {
            anchor: Some(Place { row: here.row, col: 0 }),
            anchor_scroll: s.scroll,
            cursor: Some(Place { row: here.row, col: (cols - 1) as u16 }),
            selection: SelectionMode::Line,
            ..s
        }),
{
}

/// Whether this is a command of the mode.
pub open spec fn is_copy_command(w: Seq<char>) -> bool {
    ||| has_prefix(w, "copy-pipe"@) || has_prefix(w, "goto-line"@)
    ||| w == "cancel"@
    ||| w == "begin-selection"@
    ||| w == "select-line"@
    ||| w == "rectangle-toggle"@
    ||| w == "copy-selection"@
    ||| w == "copy-selection-no-clear"@
    ||| w == "copy-selection-and-cancel"@
    ||| w == "cursor-up"@
    ||| w == "cursor-down"@
    ||| w == "cursor-left"@
    ||| w == "cursor-right"@
    ||| w == "start-of-line"@
    ||| w == "end-of-line"@
    ||| w == "back-to-indentation"@
    ||| w == "next-word"@
    ||| w == "previous-word"@
    ||| w == "next-word-end"@
    ||| w == "next-space"@
    ||| w == "previous-space"@
    ||| w == "next-space-end"@
    ||| w == "top-line"@
    ||| w == "middle-line"@
    ||| w == "bottom-line"@
    ||| w == "history-top"@
    ||| w == "history-bottom"@
    ||| w == "halfpage-up"@
    ||| w == "halfpage-down"@
    ||| w == "page-up"@
    ||| w == "page-down"@
    ||| w == "scroll-up"@
    ||| w == "scroll-down"@
    ||| w == "search-forward"@
    ||| w == "search-forward-incremental"@
    ||| w == "search-backward"@
    ||| w == "search-backward-incremental"@
    ||| w == "search-again"@
    ||| w == "search-reverse"@
    ||| w == "copy-end-of-line"@
    ||| w == "select-word"@
    ||| w == "other-end"@
    ||| w == "clear-selection"@
    ||| w == "append-selection"@
    ||| w == "append-selection-and-cancel"@
    ||| w == "copy-line"@
    ||| w == "jump-forward"@
    ||| w == "jump-backward"@
    ||| w == "jump-to-forward"@
    ||| w == "jump-to-backward"@
    ||| w == "next-paragraph"@
    ||| w == "previous-paragraph"@
    ||| w == "next-matching-bracket"@
    ||| w == "stop-selection"@
}

/// A command that is not known takes no steps, and every other one does.
pub proof fn unknown_commands_do_nothing(w: Seq<char>, half: usize, has_cursor: bool)
    ensures
        is_copy_command(w) == (command_steps(w, half, has_cursor).len() > 0),
{
}

/// The program that a text is handed to is what stands behind the command.
pub proof fn program_is_the_rest(program: Seq<char>)
    requires
        program.len() > 0,
        !is_white(program[0]),
        !is_white(program.last()),
        program[0] != '-',
    ensures
        pipe_program("copy-pipe"@ + seq![' '] + program) == program,
        pipe_program("copy-pipe-and-cancel"@ + seq![' '] + program) == program,
{
    reveal_strlit("copy-pipe");
    reveal_strlit("copy-pipe-and-cancel");
    let a = "copy-pipe"@ + seq![' '] + program;
    let b = "copy-pipe-and-cancel"@ + seq![' '] + program;
    assert(a.take(9) =~= "copy-pipe"@);
    assert(b.take(20) =~= "copy-pipe-and-cancel"@);
    assert(a.skip(9) =~= seq![' '] + program);
    assert(b.skip(20) =~= seq![' '] + program);
    if has_prefix(a, "copy-pipe-and-cancel"@) {
        assert(a.take(20)[9] == a[9]);
        assert("copy-pipe-and-cancel"@[9] == '-');
        assert(false);
    }
    let s = seq![' '] + program;
    assert(s.skip(1) =~= program);
    reveal_with_fuel(trimmed_start, 3);
    reveal_with_fuel(trimmed_end, 3);
    assert(trimmed_end(s) =~= s);
    assert(trimmed_end(program) =~= program);
    assert(trimmed_start(s) =~= program);
}

} // verus!
