//! What holds of the keys that are sent to a pane.

use vstd::prelude::*;
use crate::server::send_keys::{
    copy_key_name_text, is_output, key_interrupts, key_sequence_text, key_texts, names_key, uppercase,
    win32_key, KeyLookup, KeyOutput,
};
use crate::text::{decimal, joined, lowered_ascii, texts};

verus! {

/// Whether a key has a second name.
pub open spec fn other_name(a: Seq<char>, b: Seq<char>) -> bool {
    ||| a == "BTAB"@ && b == "BACKTAB"@
    ||| a == "ESC"@ && b == "ESCAPE"@
    ||| a == "BSPACE"@ && b == "BACKSPACE"@
    ||| a == "PPAGE"@ && b == "PAGEUP"@
    ||| a == "NPAGE"@ && b == "PAGEDOWN"@
    ||| a == "DC"@ && b == "DELETE"@
    ||| a == "IC"@ && b == "INSERT"@
}

/// Whether two names are names of one key.
pub open spec fn same_key(a: Seq<char>, b: Seq<char>) -> bool {
    a == b || other_name(a, b) || other_name(b, a)
}

proof fn lemma_names()
    ensures
        "ENTER"@.len() == 5 && "ENTER"@[0] == 'E' && "ENTER"@[1] == 'N' && "ENTER"@[2] == 'T' && "ENTER"@[3] == 'E' && "ENTER"@[4] == 'R',
        "TAB"@.len() == 3 && "TAB"@[0] == 'T' && "TAB"@[1] == 'A' && "TAB"@[2] == 'B',
        "BTAB"@.len() == 4 && "BTAB"@[0] == 'B' && "BTAB"@[1] == 'T' && "BTAB"@[2] == 'A' && "BTAB"@[3] == 'B',
        "BACKTAB"@.len() == 7 && "BACKTAB"@[0] == 'B' && "BACKTAB"@[1] == 'A' && "BACKTAB"@[2] == 'C' && "BACKTAB"@[3] == 'K' && "BACKTAB"@[4] == 'T' && "BACKTAB"@[5] == 'A' && "BACKTAB"@[6] == 'B',
        "ESCAPE"@.len() == 6 && "ESCAPE"@[0] == 'E' && "ESCAPE"@[1] == 'S' && "ESCAPE"@[2] == 'C' && "ESCAPE"@[3] == 'A' && "ESCAPE"@[4] == 'P' && "ESCAPE"@[5] == 'E',
        "ESC"@.len() == 3 && "ESC"@[0] == 'E' && "ESC"@[1] == 'S' && "ESC"@[2] == 'C',
        "SPACE"@.len() == 5 && "SPACE"@[0] == 'S' && "SPACE"@[1] == 'P' && "SPACE"@[2] == 'A' && "SPACE"@[3] == 'C' && "SPACE"@[4] == 'E',
        "BSPACE"@.len() == 6 && "BSPACE"@[0] == 'B' && "BSPACE"@[1] == 'S' && "BSPACE"@[2] == 'P' && "BSPACE"@[3] == 'A' && "BSPACE"@[4] == 'C' && "BSPACE"@[5] == 'E',
        "BACKSPACE"@.len() == 9 && "BACKSPACE"@[0] == 'B' && "BACKSPACE"@[1] == 'A' && "BACKSPACE"@[2] == 'C' && "BACKSPACE"@[3] == 'K' && "BACKSPACE"@[4] == 'S' && "BACKSPACE"@[5] == 'P' && "BACKSPACE"@[6] == 'A' && "BACKSPACE"@[7] == 'C' && "BACKSPACE"@[8] == 'E',
        "UP"@.len() == 2 && "UP"@[0] == 'U' && "UP"@[1] == 'P',
        "DOWN"@.len() == 4 && "DOWN"@[0] == 'D' && "DOWN"@[1] == 'O' && "DOWN"@[2] == 'W' && "DOWN"@[3] == 'N',
        "RIGHT"@.len() == 5 && "RIGHT"@[0] == 'R' && "RIGHT"@[1] == 'I' && "RIGHT"@[2] == 'G' && "RIGHT"@[3] == 'H' && "RIGHT"@[4] == 'T',
        "LEFT"@.len() == 4 && "LEFT"@[0] == 'L' && "LEFT"@[1] == 'E' && "LEFT"@[2] == 'F' && "LEFT"@[3] == 'T',
        "HOME"@.len() == 4 && "HOME"@[0] == 'H' && "HOME"@[1] == 'O' && "HOME"@[2] == 'M' && "HOME"@[3] == 'E',
        "END"@.len() == 3 && "END"@[0] == 'E' && "END"@[1] == 'N' && "END"@[2] == 'D',
        "PAGEUP"@.len() == 6 && "PAGEUP"@[0] == 'P' && "PAGEUP"@[1] == 'A' && "PAGEUP"@[2] == 'G' && "PAGEUP"@[3] == 'E' && "PAGEUP"@[4] == 'U' && "PAGEUP"@[5] == 'P',
        "PPAGE"@.len() == 5 && "PPAGE"@[0] == 'P' && "PPAGE"@[1] == 'P' && "PPAGE"@[2] == 'A' && "PPAGE"@[3] == 'G' && "PPAGE"@[4] == 'E',
        "PAGEDOWN"@.len() == 8 && "PAGEDOWN"@[0] == 'P' && "PAGEDOWN"@[1] == 'A' && "PAGEDOWN"@[2] == 'G' && "PAGEDOWN"@[3] == 'E' && "PAGEDOWN"@[4] == 'D' && "PAGEDOWN"@[5] == 'O' && "PAGEDOWN"@[6] == 'W' && "PAGEDOWN"@[7] == 'N',
        "NPAGE"@.len() == 5 && "NPAGE"@[0] == 'N' && "NPAGE"@[1] == 'P' && "NPAGE"@[2] == 'A' && "NPAGE"@[3] == 'G' && "NPAGE"@[4] == 'E',
        "DELETE"@.len() == 6 && "DELETE"@[0] == 'D' && "DELETE"@[1] == 'E' && "DELETE"@[2] == 'L' && "DELETE"@[3] == 'E' && "DELETE"@[4] == 'T' && "DELETE"@[5] == 'E',
        "DC"@.len() == 2 && "DC"@[0] == 'D' && "DC"@[1] == 'C',
        "INSERT"@.len() == 6 && "INSERT"@[0] == 'I' && "INSERT"@[1] == 'N' && "INSERT"@[2] == 'S' && "INSERT"@[3] == 'E' && "INSERT"@[4] == 'R' && "INSERT"@[5] == 'T',
        "IC"@.len() == 2 && "IC"@[0] == 'I' && "IC"@[1] == 'C',
        "F1"@.len() == 2 && "F1"@[0] == 'F' && "F1"@[1] == '1',
        "F2"@.len() == 2 && "F2"@[0] == 'F' && "F2"@[1] == '2',
        "F3"@.len() == 2 && "F3"@[0] == 'F' && "F3"@[1] == '3',
        "F4"@.len() == 2 && "F4"@[0] == 'F' && "F4"@[1] == '4',
        "F5"@.len() == 2 && "F5"@[0] == 'F' && "F5"@[1] == '5',
        "F6"@.len() == 2 && "F6"@[0] == 'F' && "F6"@[1] == '6',
        "F7"@.len() == 2 && "F7"@[0] == 'F' && "F7"@[1] == '7',
        "F8"@.len() == 2 && "F8"@[0] == 'F' && "F8"@[1] == '8',
        "F9"@.len() == 2 && "F9"@[0] == 'F' && "F9"@[1] == '9',
        "F10"@.len() == 3 && "F10"@[0] == 'F' && "F10"@[1] == '1' && "F10"@[2] == '0',
        "F11"@.len() == 3 && "F11"@[0] == 'F' && "F11"@[1] == '1' && "F11"@[2] == '1',
        "F12"@.len() == 3 && "F12"@[0] == 'F' && "F12"@[1] == '1' && "F12"@[2] == '2',
{
    reveal_strlit("ENTER");
    reveal_strlit("TAB");
    reveal_strlit("BTAB");
    reveal_strlit("BACKTAB");
    reveal_strlit("ESCAPE");
    reveal_strlit("ESC");
    reveal_strlit("SPACE");
    reveal_strlit("BSPACE");
    reveal_strlit("BACKSPACE");
    reveal_strlit("UP");
    reveal_strlit("DOWN");
    reveal_strlit("RIGHT");
    reveal_strlit("LEFT");
    reveal_strlit("HOME");
    reveal_strlit("END");
    reveal_strlit("PAGEUP");
    reveal_strlit("PPAGE");
    reveal_strlit("PAGEDOWN");
    reveal_strlit("NPAGE");
    reveal_strlit("DELETE");
    reveal_strlit("DC");
    reveal_strlit("INSERT");
    reveal_strlit("IC");
    reveal_strlit("F1");
    reveal_strlit("F2");
    reveal_strlit("F3");
    reveal_strlit("F4");
    reveal_strlit("F5");
    reveal_strlit("F6");
    reveal_strlit("F7");
    reveal_strlit("F8");
    reveal_strlit("F9");
    reveal_strlit("F10");
    reveal_strlit("F11");
    reveal_strlit("F12");
}

proof fn lemma_sequences()
    ensures
        "\r"@.len() == 1 && "\r"@[0] == '\r',
        "\t"@.len() == 1 && "\t"@[0] == '\t',
        "\x1b[Z"@.len() == 3 && "\x1b[Z"@[0] == '\u{1b}' && "\x1b[Z"@[1] == '[' && "\x1b[Z"@[2] == 'Z',
        "\x1b"@.len() == 1 && "\x1b"@[0] == '\u{1b}',
        " "@.len() == 1 && " "@[0] == ' ',
        "\x7f"@.len() == 1 && "\x7f"@[0] == '\u{7f}',
        "\x1b[A"@.len() == 3 && "\x1b[A"@[0] == '\u{1b}' && "\x1b[A"@[1] == '[' && "\x1b[A"@[2] == 'A',
        "\x1b[B"@.len() == 3 && "\x1b[B"@[0] == '\u{1b}' && "\x1b[B"@[1] == '[' && "\x1b[B"@[2] == 'B',
        "\x1b[C"@.len() == 3 && "\x1b[C"@[0] == '\u{1b}' && "\x1b[C"@[1] == '[' && "\x1b[C"@[2] == 'C',
        "\x1b[D"@.len() == 3 && "\x1b[D"@[0] == '\u{1b}' && "\x1b[D"@[1] == '[' && "\x1b[D"@[2] == 'D',
        "\x1b[H"@.len() == 3 && "\x1b[H"@[0] == '\u{1b}' && "\x1b[H"@[1] == '[' && "\x1b[H"@[2] == 'H',
        "\x1b[F"@.len() == 3 && "\x1b[F"@[0] == '\u{1b}' && "\x1b[F"@[1] == '[' && "\x1b[F"@[2] == 'F',
        "\x1b[5~"@.len() == 4 && "\x1b[5~"@[0] == '\u{1b}' && "\x1b[5~"@[1] == '[' && "\x1b[5~"@[2] == '5' && "\x1b[5~"@[3] == '~',
        "\x1b[6~"@.len() == 4 && "\x1b[6~"@[0] == '\u{1b}' && "\x1b[6~"@[1] == '[' && "\x1b[6~"@[2] == '6' && "\x1b[6~"@[3] == '~',
        "\x1b[3~"@.len() == 4 && "\x1b[3~"@[0] == '\u{1b}' && "\x1b[3~"@[1] == '[' && "\x1b[3~"@[2] == '3' && "\x1b[3~"@[3] == '~',
        "\x1b[2~"@.len() == 4 && "\x1b[2~"@[0] == '\u{1b}' && "\x1b[2~"@[1] == '[' && "\x1b[2~"@[2] == '2' && "\x1b[2~"@[3] == '~',
        "\x1bOP"@.len() == 3 && "\x1bOP"@[0] == '\u{1b}' && "\x1bOP"@[1] == 'O' && "\x1bOP"@[2] == 'P',
        "\x1bOQ"@.len() == 3 && "\x1bOQ"@[0] == '\u{1b}' && "\x1bOQ"@[1] == 'O' && "\x1bOQ"@[2] == 'Q',
        "\x1bOR"@.len() == 3 && "\x1bOR"@[0] == '\u{1b}' && "\x1bOR"@[1] == 'O' && "\x1bOR"@[2] == 'R',
        "\x1bOS"@.len() == 3 && "\x1bOS"@[0] == '\u{1b}' && "\x1bOS"@[1] == 'O' && "\x1bOS"@[2] == 'S',
        "\x1b[15~"@.len() == 5 && "\x1b[15~"@[0] == '\u{1b}' && "\x1b[15~"@[1] == '[' && "\x1b[15~"@[2] == '1' && "\x1b[15~"@[3] == '5' && "\x1b[15~"@[4] == '~',
        "\x1b[17~"@.len() == 5 && "\x1b[17~"@[0] == '\u{1b}' && "\x1b[17~"@[1] == '[' && "\x1b[17~"@[2] == '1' && "\x1b[17~"@[3] == '7' && "\x1b[17~"@[4] == '~',
        "\x1b[18~"@.len() == 5 && "\x1b[18~"@[0] == '\u{1b}' && "\x1b[18~"@[1] == '[' && "\x1b[18~"@[2] == '1' && "\x1b[18~"@[3] == '8' && "\x1b[18~"@[4] == '~',
        "\x1b[19~"@.len() == 5 && "\x1b[19~"@[0] == '\u{1b}' && "\x1b[19~"@[1] == '[' && "\x1b[19~"@[2] == '1' && "\x1b[19~"@[3] == '9' && "\x1b[19~"@[4] == '~',
        "\x1b[20~"@.len() == 5 && "\x1b[20~"@[0] == '\u{1b}' && "\x1b[20~"@[1] == '[' && "\x1b[20~"@[2] == '2' && "\x1b[20~"@[3] == '0' && "\x1b[20~"@[4] == '~',
        "\x1b[21~"@.len() == 5 && "\x1b[21~"@[0] == '\u{1b}' && "\x1b[21~"@[1] == '[' && "\x1b[21~"@[2] == '2' && "\x1b[21~"@[3] == '1' && "\x1b[21~"@[4] == '~',
        "\x1b[23~"@.len() == 5 && "\x1b[23~"@[0] == '\u{1b}' && "\x1b[23~"@[1] == '[' && "\x1b[23~"@[2] == '2' && "\x1b[23~"@[3] == '3' && "\x1b[23~"@[4] == '~',
        "\x1b[24~"@.len() == 5 && "\x1b[24~"@[0] == '\u{1b}' && "\x1b[24~"@[1] == '[' && "\x1b[24~"@[2] == '2' && "\x1b[24~"@[3] == '4' && "\x1b[24~"@[4] == '~',
{
    reveal_strlit("\r");
    reveal_strlit("\t");
    reveal_strlit("\x1b[Z");
    reveal_strlit("\x1b");
    reveal_strlit(" ");
    reveal_strlit("\x7f");
    reveal_strlit("\x1b[A");
    reveal_strlit("\x1b[B");
    reveal_strlit("\x1b[C");
    reveal_strlit("\x1b[D");
    reveal_strlit("\x1b[H");
    reveal_strlit("\x1b[F");
    reveal_strlit("\x1b[5~");
    reveal_strlit("\x1b[6~");
    reveal_strlit("\x1b[3~");
    reveal_strlit("\x1b[2~");
    reveal_strlit("\x1bOP");
    reveal_strlit("\x1bOQ");
    reveal_strlit("\x1bOR");
    reveal_strlit("\x1bOS");
    reveal_strlit("\x1b[15~");
    reveal_strlit("\x1b[17~");
    reveal_strlit("\x1b[18~");
    reveal_strlit("\x1b[19~");
    reveal_strlit("\x1b[20~");
    reveal_strlit("\x1b[21~");
    reveal_strlit("\x1b[23~");
    reveal_strlit("\x1b[24~");
}

proof fn lemma_copy_names()
    ensures
        "enter"@.len() == 5 && "enter"@[0] == 'e' && "enter"@[1] == 'n' && "enter"@[2] == 't' && "enter"@[3] == 'e' && "enter"@[4] == 'r',
        "tab"@.len() == 3 && "tab"@[0] == 't' && "tab"@[1] == 'a' && "tab"@[2] == 'b',
        "btab"@.len() == 4 && "btab"@[0] == 'b' && "btab"@[1] == 't' && "btab"@[2] == 'a' && "btab"@[3] == 'b',
        "esc"@.len() == 3 && "esc"@[0] == 'e' && "esc"@[1] == 's' && "esc"@[2] == 'c',
        "space"@.len() == 5 && "space"@[0] == 's' && "space"@[1] == 'p' && "space"@[2] == 'a' && "space"@[3] == 'c' && "space"@[4] == 'e',
        "backspace"@.len() == 9 && "backspace"@[0] == 'b' && "backspace"@[1] == 'a' && "backspace"@[2] == 'c' && "backspace"@[3] == 'k' && "backspace"@[4] == 's' && "backspace"@[5] == 'p' && "backspace"@[6] == 'a' && "backspace"@[7] == 'c' && "backspace"@[8] == 'e',
        "up"@.len() == 2 && "up"@[0] == 'u' && "up"@[1] == 'p',
        "down"@.len() == 4 && "down"@[0] == 'd' && "down"@[1] == 'o' && "down"@[2] == 'w' && "down"@[3] == 'n',
        "right"@.len() == 5 && "right"@[0] == 'r' && "right"@[1] == 'i' && "right"@[2] == 'g' && "right"@[3] == 'h' && "right"@[4] == 't',
        "left"@.len() == 4 && "left"@[0] == 'l' && "left"@[1] == 'e' && "left"@[2] == 'f' && "left"@[3] == 't',
        "home"@.len() == 4 && "home"@[0] == 'h' && "home"@[1] == 'o' && "home"@[2] == 'm' && "home"@[3] == 'e',
        "end"@.len() == 3 && "end"@[0] == 'e' && "end"@[1] == 'n' && "end"@[2] == 'd',
        "pageup"@.len() == 6 && "pageup"@[0] == 'p' && "pageup"@[1] == 'a' && "pageup"@[2] == 'g' && "pageup"@[3] == 'e' && "pageup"@[4] == 'u' && "pageup"@[5] == 'p',
        "pagedown"@.len() == 8 && "pagedown"@[0] == 'p' && "pagedown"@[1] == 'a' && "pagedown"@[2] == 'g' && "pagedown"@[3] == 'e' && "pagedown"@[4] == 'd' && "pagedown"@[5] == 'o' && "pagedown"@[6] == 'w' && "pagedown"@[7] == 'n',
        "delete"@.len() == 6 && "delete"@[0] == 'd' && "delete"@[1] == 'e' && "delete"@[2] == 'l' && "delete"@[3] == 'e' && "delete"@[4] == 't' && "delete"@[5] == 'e',
        "insert"@.len() == 6 && "insert"@[0] == 'i' && "insert"@[1] == 'n' && "insert"@[2] == 's' && "insert"@[3] == 'e' && "insert"@[4] == 'r' && "insert"@[5] == 't',
{
    reveal_strlit("enter");
    reveal_strlit("tab");
    reveal_strlit("btab");
    reveal_strlit("esc");
    reveal_strlit("space");
    reveal_strlit("backspace");
    reveal_strlit("up");
    reveal_strlit("down");
    reveal_strlit("right");
    reveal_strlit("left");
    reveal_strlit("home");
    reveal_strlit("end");
    reveal_strlit("pageup");
    reveal_strlit("pagedown");
    reveal_strlit("delete");
    reveal_strlit("insert");
}

/// The cursor keys send what moves a terminal's cursor their way: `A` up, `B` down, `C` to the
/// right, `D` to the left, `H` home and `F` to the end.
pub proof fn cursor_keys_move_the_cursor()
    ensures
        key_sequence_text("UP"@) == Some(seq!['\u{1b}', '[', 'A']),
        key_sequence_text("DOWN"@) == Some(seq!['\u{1b}', '[', 'B']),
        key_sequence_text("RIGHT"@) == Some(seq!['\u{1b}', '[', 'C']),
        key_sequence_text("LEFT"@) == Some(seq!['\u{1b}', '[', 'D']),
        key_sequence_text("HOME"@) == Some(seq!['\u{1b}', '[', 'H']),
        key_sequence_text("END"@) == Some(seq!['\u{1b}', '[', 'F']),
        key_sequence_text("BTAB"@) == Some(seq!['\u{1b}', '[', 'Z']),
{
    lemma_names();
    reveal_strlit("\x1b[A");
    reveal_strlit("\x1b[B");
    reveal_strlit("\x1b[C");
    reveal_strlit("\x1b[D");
    reveal_strlit("\x1b[H");
    reveal_strlit("\x1b[F");
    reveal_strlit("\x1b[Z");
    assert("\x1b[A"@ =~= seq!['\u{1b}', '[', 'A']);
    assert("\x1b[B"@ =~= seq!['\u{1b}', '[', 'B']);
    assert("\x1b[C"@ =~= seq!['\u{1b}', '[', 'C']);
    assert("\x1b[D"@ =~= seq!['\u{1b}', '[', 'D']);
    assert("\x1b[H"@ =~= seq!['\u{1b}', '[', 'H']);
    assert("\x1b[F"@ =~= seq!['\u{1b}', '[', 'F']);
    assert("\x1b[Z"@ =~= seq!['\u{1b}', '[', 'Z']);
}

/// The keys for editing and paging send their numbers: two inserts, three deletes, five pages up
/// and six pages down.
pub proof fn editing_keys_send_their_numbers()
    ensures
        key_sequence_text("INSERT"@) == Some(seq!['\u{1b}', '[', '2', '~']),
        key_sequence_text("DELETE"@) == Some(seq!['\u{1b}', '[', '3', '~']),
        key_sequence_text("PAGEUP"@) == Some(seq!['\u{1b}', '[', '5', '~']),
        key_sequence_text("PAGEDOWN"@) == Some(seq!['\u{1b}', '[', '6', '~']),
{
    lemma_names();
    reveal_strlit("\x1b[2~");
    reveal_strlit("\x1b[3~");
    reveal_strlit("\x1b[5~");
    reveal_strlit("\x1b[6~");
    assert("\x1b[2~"@ =~= seq!['\u{1b}', '[', '2', '~']);
    assert("\x1b[3~"@ =~= seq!['\u{1b}', '[', '3', '~']);
    assert("\x1b[5~"@ =~= seq!['\u{1b}', '[', '5', '~']);
    assert("\x1b[6~"@ =~= seq!['\u{1b}', '[', '6', '~']);
}

/// Keys that stand for a character send that character.
pub proof fn character_keys_send_their_character()
    ensures
        key_sequence_text("ENTER"@) == Some(seq!['\r']),
        key_sequence_text("TAB"@) == Some(seq!['\t']),
        key_sequence_text("ESC"@) == Some(seq!['\u{1b}']),
        key_sequence_text("SPACE"@) == Some(seq![' ']),
        key_sequence_text("BSPACE"@) == Some(seq!['\u{7f}']),
{
    lemma_names();
    reveal_strlit("\r");
    reveal_strlit("\t");
    reveal_strlit("\x1b");
    reveal_strlit(" ");
    reveal_strlit("\x7f");
    assert("\r"@ =~= seq!['\r']);
    assert("\t"@ =~= seq!['\t']);
    assert("\x1b"@ =~= seq!['\u{1b}']);
    assert(" "@ =~= seq![' ']);
    assert("\x7f"@ =~= seq!['\u{7f}']);
}

/// The number in the sequence of a function key from the fifth on: they go on from fifteen, but
/// for sixteen and twenty-two.
pub open spec fn function_number(n: nat) -> nat {
    if n <= 5 {
        n + 10
    } else if n <= 10 {
        n + 11
    } else {
        n + 12
    }
}

/// A function key sends its place: the first four by a letter from `P` on, the others by a number.
pub proof fn function_keys_send_their_place(n: nat)
    requires
        1 <= n <= 12,
    ensures
        key_sequence_text(seq!['F'] + decimal(n)) == Some(
            if n <= 4 {
                seq!['\u{1b}', 'O', (79 + n) as char]
            } else {
                seq!['\u{1b}', '['] + decimal(function_number(n)) + seq!['~']
            },
        ),
{
    lemma_names();
    reveal_strlit("\x1bOP");
    reveal_strlit("\x1bOQ");
    reveal_strlit("\x1bOR");
    reveal_strlit("\x1bOS");
    reveal_strlit("\x1b[15~");
    reveal_strlit("\x1b[17~");
    reveal_strlit("\x1b[18~");
    reveal_strlit("\x1b[19~");
    reveal_strlit("\x1b[20~");
    reveal_strlit("\x1b[21~");
    reveal_strlit("\x1b[23~");
    reveal_strlit("\x1b[24~");
    reveal_with_fuel(decimal, 3);
    let name = seq!['F'] + decimal(n);
    if n == 1 {
        assert(decimal(n) =~= seq!['1']);
        assert(name =~= "F1"@);
        assert(seq!['\u{1b}', 'O', (79 + n) as char] =~= "\x1bOP"@);
    }
    if n == 2 {
        assert(decimal(n) =~= seq!['2']);
        assert(name =~= "F2"@);
        assert(seq!['\u{1b}', 'O', (79 + n) as char] =~= "\x1bOQ"@);
    }
    if n == 3 {
        assert(decimal(n) =~= seq!['3']);
        assert(name =~= "F3"@);
        assert(seq!['\u{1b}', 'O', (79 + n) as char] =~= "\x1bOR"@);
    }
    if n == 4 {
        assert(decimal(n) =~= seq!['4']);
        assert(name =~= "F4"@);
        assert(seq!['\u{1b}', 'O', (79 + n) as char] =~= "\x1bOS"@);
    }
    if n == 5 {
        assert(decimal(n) =~= seq!['5']);
        assert(name =~= "F5"@);
        assert(seq!['\u{1b}', '['] + decimal(function_number(n)) + seq!['~'] =~= "\x1b[15~"@);
    }
    if n == 6 {
        assert(decimal(n) =~= seq!['6']);
        assert(name =~= "F6"@);
        assert(seq!['\u{1b}', '['] + decimal(function_number(n)) + seq!['~'] =~= "\x1b[17~"@);
    }
    if n == 7 {
        assert(decimal(n) =~= seq!['7']);
        assert(name =~= "F7"@);
        assert(seq!['\u{1b}', '['] + decimal(function_number(n)) + seq!['~'] =~= "\x1b[18~"@);
    }
    if n == 8 {
        assert(decimal(n) =~= seq!['8']);
        assert(name =~= "F8"@);
        assert(seq!['\u{1b}', '['] + decimal(function_number(n)) + seq!['~'] =~= "\x1b[19~"@);
    }
    if n == 9 {
        assert(decimal(n) =~= seq!['9']);
        assert(name =~= "F9"@);
        assert(seq!['\u{1b}', '['] + decimal(function_number(n)) + seq!['~'] =~= "\x1b[20~"@);
    }
    if n == 10 {
        assert(decimal(n) =~= seq!['1', '0']);
        assert(name =~= "F10"@);
        assert(seq!['\u{1b}', '['] + decimal(function_number(n)) + seq!['~'] =~= "\x1b[21~"@);
    }
    if n == 11 {
        assert(decimal(n) =~= seq!['1', '1']);
        assert(name =~= "F11"@);
        assert(seq!['\u{1b}', '['] + decimal(function_number(n)) + seq!['~'] =~= "\x1b[23~"@);
    }
    if n == 12 {
        assert(decimal(n) =~= seq!['1', '2']);
        assert(name =~= "F12"@);
        assert(seq!['\u{1b}', '['] + decimal(function_number(n)) + seq!['~'] =~= "\x1b[24~"@);
    }
}

/// A key is sent the same under each of its names, and two keys never send the same.
pub proof fn keys_are_told_apart(a: Seq<char>, b: Seq<char>)
    requires
        key_sequence_text(a) is Some,
    ensures
        (key_sequence_text(a) == key_sequence_text(b)) == same_key(a, b),
{
    lemma_names();
    lemma_sequences();
}

/// Whether this is the name of a key that has one, in capitals.
pub open spec fn is_named(name: Seq<char>) -> bool {
    ||| name == "ENTER"@
    ||| name == "TAB"@
    ||| name == "BTAB"@
    ||| name == "BACKTAB"@
    ||| name == "ESCAPE"@
    ||| name == "ESC"@
    ||| name == "SPACE"@
    ||| name == "BSPACE"@
    ||| name == "BACKSPACE"@
    ||| name == "UP"@
    ||| name == "DOWN"@
    ||| name == "RIGHT"@
    ||| name == "LEFT"@
    ||| name == "HOME"@
    ||| name == "END"@
    ||| name == "PAGEUP"@
    ||| name == "PPAGE"@
    ||| name == "PAGEDOWN"@
    ||| name == "NPAGE"@
    ||| name == "DELETE"@
    ||| name == "DC"@
    ||| name == "INSERT"@
    ||| name == "IC"@
    ||| exists|n: nat| 1 <= n <= 12 && name == seq!['F'] + #[trigger] decimal(n)
}

/// A word that is not a key's name has no sequence: it is sent as it is.
pub proof fn other_words_are_no_keys(name: Seq<char>)
    ensures
        key_sequence_text(name) is Some == is_named(name),
{
    reveal_strlit("F1");
    reveal_strlit("F2");
    reveal_strlit("F3");
    reveal_strlit("F4");
    reveal_strlit("F5");
    reveal_strlit("F6");
    reveal_strlit("F7");
    reveal_strlit("F8");
    reveal_strlit("F9");
    reveal_strlit("F10");
    reveal_strlit("F11");
    reveal_strlit("F12");
    reveal_with_fuel(decimal, 3);
    assert("F1"@ =~= seq!['F'] + decimal(1));
    assert("F2"@ =~= seq!['F'] + decimal(2));
    assert("F3"@ =~= seq!['F'] + decimal(3));
    assert("F4"@ =~= seq!['F'] + decimal(4));
    assert("F5"@ =~= seq!['F'] + decimal(5));
    assert("F6"@ =~= seq!['F'] + decimal(6));
    assert("F7"@ =~= seq!['F'] + decimal(7));
    assert("F8"@ =~= seq!['F'] + decimal(8));
    assert("F9"@ =~= seq!['F'] + decimal(9));
    assert("F10"@ =~= seq!['F'] + decimal(10));
    assert("F11"@ =~= seq!['F'] + decimal(11));
    assert("F12"@ =~= seq!['F'] + decimal(12));
    if exists|n: nat| 1 <= n <= 12 && name == seq!['F'] + #[trigger] decimal(n) {
        let n = choose|n: nat| 1 <= n <= 12 && name == seq!['F'] + #[trigger] decimal(n);
        assert(n == 1 || n == 2 || n == 3 || n == 4 || n == 5 || n == 6 || n == 7 || n == 8 || n == 9 || n
            == 10 || n == 11 || n == 12);
    }
}

/// A text in small letters.
pub open spec fn small(s: Seq<char>) -> Seq<char> {
    Seq::new(s.len(), |i: int| lowered_ascii(s[i]))
}

/// While text is copied, a key is called by one of its names in small letters. It has a name there
/// if it is sent to a pane by a sequence and is no function key.
pub proof fn copy_keys_keep_their_names(name: Seq<char>)
    ensures
        copy_key_name_text(name) is Some == (key_sequence_text(name) is Some && name[0] != 'F'),
        copy_key_name_text(name) is Some ==> exists|n: Seq<char>|
            #[trigger] same_key(name, n) && copy_key_name_text(name) == Some(small(n)),
{
    lemma_names();
    lemma_copy_names();
    assert("enter"@ =~= small("ENTER"@));
    assert("tab"@ =~= small("TAB"@));
    assert("btab"@ =~= small("BTAB"@));
    assert("esc"@ =~= small("ESC"@));
    assert("space"@ =~= small("SPACE"@));
    assert("backspace"@ =~= small("BACKSPACE"@));
    assert("up"@ =~= small("UP"@));
    assert("down"@ =~= small("DOWN"@));
    assert("right"@ =~= small("RIGHT"@));
    assert("left"@ =~= small("LEFT"@));
    assert("home"@ =~= small("HOME"@));
    assert("end"@ =~= small("END"@));
    assert("pageup"@ =~= small("PAGEUP"@));
    assert("pagedown"@ =~= small("PAGEDOWN"@));
    assert("delete"@ =~= small("DELETE"@));
    assert("insert"@ =~= small("INSERT"@));
    if same_key(name, "ENTER"@) {
        assert(copy_key_name_text(name) == Some(small("ENTER"@)));
    }
    if same_key(name, "TAB"@) {
        assert(copy_key_name_text(name) == Some(small("TAB"@)));
    }
    if same_key(name, "BTAB"@) {
        assert(copy_key_name_text(name) == Some(small("BTAB"@)));
    }
    if same_key(name, "ESC"@) {
        assert(copy_key_name_text(name) == Some(small("ESC"@)));
    }
    if same_key(name, "SPACE"@) {
        assert(copy_key_name_text(name) == Some(small("SPACE"@)));
    }
    if same_key(name, "BACKSPACE"@) {
        assert(copy_key_name_text(name) == Some(small("BACKSPACE"@)));
    }
    if same_key(name, "UP"@) {
        assert(copy_key_name_text(name) == Some(small("UP"@)));
    }
    if same_key(name, "DOWN"@) {
        assert(copy_key_name_text(name) == Some(small("DOWN"@)));
    }
    if same_key(name, "RIGHT"@) {
        assert(copy_key_name_text(name) == Some(small("RIGHT"@)));
    }
    if same_key(name, "LEFT"@) {
        assert(copy_key_name_text(name) == Some(small("LEFT"@)));
    }
    if same_key(name, "HOME"@) {
        assert(copy_key_name_text(name) == Some(small("HOME"@)));
    }
    if same_key(name, "END"@) {
        assert(copy_key_name_text(name) == Some(small("END"@)));
    }
    if same_key(name, "PAGEUP"@) {
        assert(copy_key_name_text(name) == Some(small("PAGEUP"@)));
    }
    if same_key(name, "PAGEDOWN"@) {
        assert(copy_key_name_text(name) == Some(small("PAGEDOWN"@)));
    }
    if same_key(name, "DELETE"@) {
        assert(copy_key_name_text(name) == Some(small("DELETE"@)));
    }
    if same_key(name, "INSERT"@) {
        assert(copy_key_name_text(name) == Some(small("INSERT"@)));
    }
}

/// While text is copied, two keys never have one name.
pub proof fn copy_keys_are_told_apart(a: Seq<char>, b: Seq<char>)
    requires
        copy_key_name_text(a) is Some,
    ensures
        (copy_key_name_text(a) == copy_key_name_text(b)) == same_key(a, b),
{
    lemma_names();
    lemma_copy_names();
}

/// A word that a modifier stands in front of has no sequence of its own.
proof fn lemma_modified_is_no_name(upper: Seq<char>)
    requires
        upper.len() >= 2,
        upper[1] == '-',
    ensures
        key_sequence_text(upper) is None,
{
    lemma_names();
}

proof fn lemma_begins(s: Seq<char>)
    ensures
        s.len() >= 2 && s[0] == 'C' && s[1] == '-' ==> crate::text::has_prefix(s, "C-"@),
        s.len() >= 2 && s[0] == 'M' && s[1] == '-' ==> crate::text::has_prefix(s, "M-"@),
        s.len() >= 2 && s[0] == 'S' && s[1] == '-' ==> crate::text::has_prefix(s, "S-"@),
        s.len() >= 4 && s[0] == 'C' && s[1] == '-' && s[2] == 'M' && s[3] == '-'
            ==> crate::text::has_prefix(s, "C-M-"@),
        crate::text::has_prefix(s, "C-"@) ==> s.len() >= 2 && s[0] == 'C' && s[1] == '-',
        crate::text::has_prefix(s, "M-"@) ==> s.len() >= 2 && s[0] == 'M' && s[1] == '-',
        crate::text::has_prefix(s, "S-"@) ==> s.len() >= 2 && s[0] == 'S' && s[1] == '-',
        crate::text::has_prefix(s, "C-M-"@) ==> s.len() >= 4 && s[0] == 'C' && s[1] == '-' && s[2]
            == 'M' && s[3] == '-',
{
    reveal_strlit("C-");
    reveal_strlit("M-");
    reveal_strlit("S-");
    reveal_strlit("C-M-");
    if s.len() >= 2 {
        assert(s.take(2).len() == 2 && s.take(2)[0] == s[0] && s.take(2)[1] == s[1]);
        if s[0] == 'C' && s[1] == '-' {
            assert(s.take(2) =~= "C-"@);
        }
        if s[0] == 'M' && s[1] == '-' {
            assert(s.take(2) =~= "M-"@);
        }
        if s[0] == 'S' && s[1] == '-' {
            assert(s.take(2) =~= "S-"@);
        }
    }
    if s.len() >= 4 {
        assert(s.take(4)[0] == s[0] && s.take(4)[1] == s[1] && s.take(4)[2] == s[2] && s.take(4)[3]
            == s[3]);
        if s[0] == 'C' && s[1] == '-' && s[2] == 'M' && s[3] == '-' {
            assert(s.take(4) =~= "C-M-"@);
        }
    }
}

/// A word names a key if it is a key's name, or has a modifier in front: control, meta or shift.
pub proof fn modifiers_make_keys(upper: Seq<char>)
    ensures
        names_key(upper) == (is_named(upper) || (upper.len() >= 2 && upper[1] == '-' && (upper[0] == 'C'
            || upper[0] == 'M' || upper[0] == 'S'))),
{
    other_words_are_no_keys(upper);
    lemma_begins(upper);
}

/// A key with a name sends its sequence, once, whatever else is known of it and whatever follows.
pub proof fn named_key_sends_its_sequence(
    key: Seq<char>,
    upper: Seq<char>,
    modified: Option<Seq<char>>,
    ctrl: Option<u8>,
    codes: Option<(u16, u16)>,
    next: Option<Seq<char>>,
)
    requires
        key_sequence_text(upper) is Some,
    ensures
        key_texts(key, upper, modified, ctrl, codes, next) == seq![key_sequence_text(upper)->0],
        !key_interrupts(upper, modified, ctrl, codes),
{
}

/// A key with the meta modifier sends an escape and then its character.
pub proof fn meta_sends_an_escape_first(
    key: Seq<char>,
    upper: Seq<char>,
    ctrl: Option<u8>,
    codes: Option<(u16, u16)>,
    next: Option<Seq<char>>,
)
    requires
        upper.len() >= 2,
        upper[0] == 'M',
        upper[1] == '-',
        key.len() > 2,
    ensures
        key_texts(key, upper, None, ctrl, codes, next) == seq![seq!['\u{1b}', key[2]]],
        !key_interrupts(upper, None, ctrl, codes),
{
    lemma_modified_is_no_name(upper);
    lemma_begins(upper);
}

/// A control key sends its control character, and with meta an escape before it.
pub proof fn control_sends_its_character(
    key: Seq<char>,
    upper: Seq<char>,
    byte: u8,
    next: Option<Seq<char>>,
)
    requires
        upper.len() >= 3,
        upper[0] == 'C',
        upper[1] == '-',
        key.len() == upper.len(),
    ensures
        ({
            let with_meta = upper.len() >= 4 && upper[2] == 'M' && upper[3] == '-';
            &&& !with_meta ==> key_texts(key, upper, None, Some(byte), None, next) == seq![
                seq![byte as char],
            ]
            &&& with_meta && key.len() > 4 ==> key_texts(key, upper, None, Some(byte), None, next)
                == seq![seq!['\u{1b}', byte as char]]
        }),
{
    lemma_modified_is_no_name(upper);
    lemma_begins(upper);
}

/// Only control and C on a console interrupt a program, and not with meta.
pub proof fn only_control_c_interrupts(
    upper: Seq<char>,
    modified: Option<Seq<char>>,
    ctrl: Option<u8>,
    codes: Option<(u16, u16)>,
)
    ensures
        key_interrupts(upper, modified, ctrl, codes) == (modified is None && codes is Some && ctrl == Some(
            3u8,
        ) && upper.len() >= 3 && upper[0] == 'C' && upper[1] == '-' && !(upper.len() >= 4 && upper[2]
            == 'M' && upper[3] == '-')),
{
    lemma_begins(upper);
    if upper.len() >= 2 && upper[1] == '-' {
        lemma_modified_is_no_name(upper);
    }
}

/// The place of a letter in the alphabet.
pub open spec fn place_of_letter(c: char) -> nat {
    if 'a' <= c && c <= 'z' {
        (c as int - 96) as nat
    } else {
        (c as int - 64) as nat
    }
}

/// On a console a control letter is sent as pressed and then as released, each with the virtual
/// key, the scan code and the letter's place in the alphabet.
pub proof fn control_letter_is_pressed_and_released(vk: u16, scan: u16, c: char)
    requires
        ('a' <= c && c <= 'z') || ('A' <= c && c <= 'Z'),
    ensures
        ({
            let front = seq!['\u{1b}', '['] + decimal(vk as nat) + seq![';'] + decimal(scan as nat)
                + seq![';'] + decimal(place_of_letter(c)) + seq![';'];
            let back = seq![';', '8', ';', '1', '_'];
            win32_key(vk, scan, c) == front + seq!['1'] + back + front + seq!['0'] + back
        }),
{
    reveal_strlit("\x1b[");
    reveal_strlit(";8;1_");
    let low = lowered_ascii(c) as u32;
    assert(97 <= low <= 122);
    assert(low & 0x1F == low - 96) by (bit_vector)
        requires
            97 <= low <= 122,
    ;
    assert(((lowered_ascii(c) as u32) & 0x1F) as nat == place_of_letter(c));
    let front = seq!['\u{1b}', '['] + decimal(vk as nat) + seq![';'] + decimal(scan as nat) + seq![';']
        + decimal(place_of_letter(c)) + seq![';'];
    let back = seq![';', '8', ';', '1', '_'];
    assert(";8;1_"@ =~= back);
    assert("\x1b["@ =~= seq!['\u{1b}', '[']);
    assert(decimal(1) =~= seq!['1']);
    assert(decimal(0) =~= seq!['0']);
    assert(win32_key(vk, scan, c) =~= front + seq!['1'] + back + front + seq!['0'] + back);
}

/// A control letter on a console is sent as that.
pub proof fn console_takes_control_letters(
    key: Seq<char>,
    upper: Seq<char>,
    byte: u8,
    codes: (u16, u16),
    next: Option<Seq<char>>,
)
    requires
        upper.len() == 3,
        upper[0] == 'C',
        upper[1] == '-',
        'A' <= upper[2] && upper[2] <= 'Z',
    ensures
        key_texts(key, upper, None, Some(byte), Some(codes), next) == seq![
            win32_key(codes.0, codes.1, upper[2]),
        ],
{
    lemma_modified_is_no_name(upper);
    lemma_begins(upper);
}

/// All that is sent for keys, one text behind the other.
pub open spec fn all_sent(outputs: Seq<KeyOutput>) -> Seq<char>
    decreases outputs.len(),
{
    if outputs.len() == 0 {
        Seq::empty()
    } else {
        all_sent(outputs.drop_last()) + joined(texts(outputs.last().texts@), Seq::empty())
    }
}

/// Words that name no keys are typed as they are, with a blank between each two.
pub proof fn plain_words_are_typed(words: Seq<Seq<char>>, lookups: Seq<KeyLookup>, outputs: Seq<KeyOutput>)
    requires
        lookups.len() == words.len(),
        outputs.len() == words.len(),
        forall|i: int| 0 <= i < words.len() ==> !names_key(uppercase(#[trigger] words[i])),
        forall|i: int| 0 <= i < words.len() ==> (#[trigger] lookups[i]).modified is None,
        forall|i: int| 0 <= i < words.len() ==> is_output(#[trigger] outputs[i], words, lookups[i], i),
    ensures
        all_sent(outputs) == joined(words, seq![' ']),
        forall|i: int| 0 <= i < words.len() ==> !(#[trigger] outputs[i]).interrupt,
{
    assert forall|i: int| 0 <= i < words.len() implies !(#[trigger] outputs[i]).interrupt by {
        assert(is_output(outputs[i], words, lookups[i], i));
        assert(!names_key(uppercase(words[i])));
    }
    lemma_typed(words, lookups, outputs, words.len() as int);
    assert(outputs.take(words.len() as int) =~= outputs);
    assert(words.take(words.len() as int) =~= words);
}

proof fn lemma_typed(words: Seq<Seq<char>>, lookups: Seq<KeyLookup>, outputs: Seq<KeyOutput>, n: int)
    requires
        0 <= n <= words.len(),
        lookups.len() == words.len(),
        outputs.len() == words.len(),
        forall|i: int| 0 <= i < words.len() ==> !names_key(uppercase(#[trigger] words[i])),
        forall|i: int| 0 <= i < words.len() ==> (#[trigger] lookups[i]).modified is None,
        forall|i: int| 0 <= i < words.len() ==> is_output(#[trigger] outputs[i], words, lookups[i], i),
    ensures
        all_sent(outputs.take(n)) == joined(words.take(n), seq![' ']) + (if 0 < n && n < words.len() {
            seq![' ']
        } else {
            Seq::empty()
        }),
    decreases n,
{
    if n == 0 {
        assert(all_sent(outputs.take(n)) =~= Seq::empty());
    } else {
        lemma_typed(words, lookups, outputs, n - 1);
        let i = n - 1;
        assert(outputs.take(n).drop_last() =~= outputs.take(i));
        assert(outputs.take(n).last() == outputs[i]);
        assert(words.take(n).drop_last() =~= words.take(i));
        assert(words.take(n).last() == words[i]);
        assert(is_output(outputs[i], words, lookups[i], i));
        assert(!names_key(uppercase(words[i])));
        assert(lookups[i].modified is None);
        let t = texts(outputs[i].texts@);
        lemma_begins(uppercase(words[i]));
        if n < words.len() {
            assert(!names_key(uppercase(words[i + 1])));
            assert(t == seq![words[i], seq![' ']]);
            assert(t.drop_last() =~= seq![words[i]]);
            reveal_with_fuel(joined, 3);
            assert(joined(t, Seq::empty()) =~= words[i] + seq![' ']);
        } else {
            assert(t == seq![words[i]]);
            assert(joined(t, Seq::empty()) == words[i]);
        }
        if n == 1 {
            assert(words.take(n).len() == 1);
            assert(words.take(n)[0] == words[0]);
            assert(words.take(0) =~= Seq::empty());
        }
        assert(all_sent(outputs.take(n)) =~= joined(words.take(n), seq![' ']) + (if n < words.len() {
            seq![' ']
        } else {
            Seq::empty()
        }));
    }
}

} // verus!
