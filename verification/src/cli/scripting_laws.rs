//! What holds of the lines for layouts, channels, joined panes and paste buffers.

use vstd::prelude::*;
use crate::cli::commands::set_buffer_text;
use crate::cli::scripting::{join_text, line_word, line_words, select_layout_text, wait_request};
use crate::cli::word_laws::{flags_are_words, plain_words_are_read, words_are_read};
use crate::cli::words::{has_flag, in_quotes, is_flag_of, last_word, plain_words, tokens, TokenView};

verus! {

proof fn lemma_literals()
    ensures
        "-n"@.len() == 2 && "-n"@[0] == '-' && "-n"@[1] == 'n',
        "-p"@.len() == 2 && "-p"@[0] == '-' && "-p"@[1] == 'p',
        "-S"@.len() == 2 && "-S"@[0] == '-' && "-S"@[1] == 'S',
        "-L"@.len() == 2 && "-L"@[0] == '-' && "-L"@[1] == 'L',
        "-U"@.len() == 2 && "-U"@[0] == '-' && "-U"@[1] == 'U',
        " -S"@.len() == 3 && " -S"@[0] == ' ' && " -S"@[1] == '-' && " -S"@[2] == 'S',
        " -L"@.len() == 3 && " -L"@[0] == ' ' && " -L"@[1] == '-' && " -L"@[2] == 'L',
        " -U"@.len() == 3 && " -U"@[0] == ' ' && " -U"@[1] == '-' && " -U"@[2] == 'U',
        "-"@.len() == 1 && "-"@[0] == '-',
        "t"@.len() == 1 && "t"@[0] == 't',
        ""@.len() == 0,
        "next-layout"@.len() == 11 && "next-layout"@[0] == 'n' && "next-layout"@[1] == 'e' && "next-layout"@[2] == 'x' && "next-layout"@[3] == 't' && "next-layout"@[4] == '-' && "next-layout"@[5] == 'l' && "next-layout"@[6] == 'a' && "next-layout"@[7] == 'y' && "next-layout"@[8] == 'o' && "next-layout"@[9] == 'u' && "next-layout"@[10] == 't',
        "previous-layout"@.len() == 15 && "previous-layout"@[0] == 'p' && "previous-layout"@[1] == 'r' && "previous-layout"@[2] == 'e' && "previous-layout"@[3] == 'v' && "previous-layout"@[4] == 'i' && "previous-layout"@[5] == 'o' && "previous-layout"@[6] == 'u' && "previous-layout"@[7] == 's' && "previous-layout"@[8] == '-' && "previous-layout"@[9] == 'l' && "previous-layout"@[10] == 'a' && "previous-layout"@[11] == 'y' && "previous-layout"@[12] == 'o' && "previous-layout"@[13] == 'u' && "previous-layout"@[14] == 't',
        "select-layout"@.len() == 13 && "select-layout"@[0] == 's' && "select-layout"@[1] == 'e' && "select-layout"@[2] == 'l' && "select-layout"@[3] == 'e' && "select-layout"@[4] == 'c' && "select-layout"@[5] == 't' && "select-layout"@[6] == '-' && "select-layout"@[7] == 'l' && "select-layout"@[8] == 'a' && "select-layout"@[9] == 'y' && "select-layout"@[10] == 'o' && "select-layout"@[11] == 'u' && "select-layout"@[12] == 't',
        "wait-for"@.len() == 8 && "wait-for"@[0] == 'w' && "wait-for"@[1] == 'a' && "wait-for"@[2] == 'i' && "wait-for"@[3] == 't' && "wait-for"@[4] == '-' && "wait-for"@[5] == 'f' && "wait-for"@[6] == 'o' && "wait-for"@[7] == 'r',
        "join-pane"@.len() == 9 && "join-pane"@[0] == 'j' && "join-pane"@[1] == 'o' && "join-pane"@[2] == 'i' && "join-pane"@[3] == 'n' && "join-pane"@[4] == '-' && "join-pane"@[5] == 'p' && "join-pane"@[6] == 'a' && "join-pane"@[7] == 'n' && "join-pane"@[8] == 'e',
        " -h"@.len() == 3 && " -h"@[0] == ' ' && " -h"@[1] == '-' && " -h"@[2] == 'h',
        " -s "@.len() == 4 && " -s "@[0] == ' ' && " -s "@[1] == '-' && " -s "@[2] == 's' && " -s "@[3] == ' ',
        " -t "@.len() == 4 && " -t "@[0] == ' ' && " -t "@[1] == '-' && " -t "@[2] == 't' && " -t "@[3] == ' ',
        "set-buffer"@.len() == 10 && "set-buffer"@[0] == 's' && "set-buffer"@[1] == 'e' && "set-buffer"@[2] == 't' && "set-buffer"@[3] == '-' && "set-buffer"@[4] == 'b' && "set-buffer"@[5] == 'u' && "set-buffer"@[6] == 'f' && "set-buffer"@[7] == 'f' && "set-buffer"@[8] == 'e' && "set-buffer"@[9] == 'r',
        " -b"@.len() == 3 && " -b"@[0] == ' ' && " -b"@[1] == '-' && " -b"@[2] == 'b',
        " "@.len() == 1 && " "@[0] == ' ',
{
    reveal_strlit("-n");
    reveal_strlit("-p");
    reveal_strlit("-S");
    reveal_strlit("-L");
    reveal_strlit("-U");
    reveal_strlit(" -S");
    reveal_strlit(" -L");
    reveal_strlit(" -U");
    reveal_strlit("-");
    reveal_strlit("t");
    reveal_strlit("");
    reveal_strlit("next-layout");
    reveal_strlit("previous-layout");
    reveal_strlit("select-layout");
    reveal_strlit("wait-for");
    reveal_strlit("join-pane");
    reveal_strlit(" -h");
    reveal_strlit(" -s ");
    reveal_strlit(" -t ");
    reveal_strlit("set-buffer");
    reveal_strlit(" -b");
    reveal_strlit(" ");
}

proof fn lemma_all_plain(t: Seq<TokenView>)
    requires
        forall|k: int|
            0 <= k < t.len() ==> (#[trigger] t[k]).value is None && !(t[k].word.len() > 0 && t[k].word[0]
                == '-'),
    ensures
        plain_words(t) == Seq::new(t.len(), |k: int| t[k].word),
    decreases t.len(),
{
    if t.len() > 0 {
        assert(t[t.len() - 1].value is None);
        lemma_all_plain(t.drop_last());
    }
    assert(plain_words(t) =~= Seq::new(t.len(), |k: int| t[k].word));
}

/// Whether none of the words behind the first begins with a dash.
pub open spec fn no_flags(words: Seq<Seq<char>>) -> bool {
    words.len() > 0 && forall|j: int|
        1 <= j < words.len() ==> !((#[trigger] words[j]).len() > 0 && words[j][0] == '-')
}

proof fn lemma_no_flags(valued: Seq<char>, words: Seq<Seq<char>>)
    requires
        no_flags(words),
    ensures
        plain_words(tokens(valued, words, 1)) == words.skip(1),
        forall|f: Seq<char>|
            f.len() > 0 && f[0] == '-' ==> !#[trigger] has_flag(tokens(valued, words, 1), f),
{
    plain_words_are_read(valued, words, 1);
    let t = tokens(valued, words, 1);
    assert forall|k: int| 0 <= k < t.len() implies (#[trigger] t[k]).value is None && !(t[k].word.len()
        > 0 && t[k].word[0] == '-') by {
        assert(t[k].word == words[k + 1]);
    }
    lemma_all_plain(t);
    assert(plain_words(t) =~= words.skip(1));
    assert forall|f: Seq<char>| f.len() > 0 && f[0] == '-' implies !#[trigger] has_flag(t, f) by {
        if has_flag(t, f) {
            let k = choose|k: int| 0 <= k < t.len() && (#[trigger] t[k]).word == f;
            assert(t[k].word[0] == '-');
        }
    }
}

/// A layout that is named is selected, the last one where there are several; `-n` asks for the next
/// one and `-p`, without it, for the one before.
pub proof fn layout_is_selected(words: Seq<Seq<char>>)
    ensures
        no_flags(words) && words.len() > 1 ==> select_layout_text(words) == "select-layout"@ + seq![' ']
            + words.last() + seq!['\n'],
        no_flags(words) && words.len() == 1 ==> select_layout_text(words) == "select-layout"@ + seq!['\n'],
        words.len() > 1 && words[1] == seq!['-', 'n'] ==> select_layout_text(words) == "next-layout"@
            + seq!['\n'],
        words.len() > 1 && words[1] == seq!['-', 'p'] && (forall|j: int|
            1 <= j < words.len() ==> #[trigger] words[j] != seq!['-', 'n']) ==> select_layout_text(words)
            == "previous-layout"@ + seq!['\n'],
{
    lemma_literals();
    assert("-n"@ =~= seq!['-', 'n']);
    assert("-p"@ =~= seq!['-', 'p']);
    let t = tokens("t"@, words, 1);
    if no_flags(words) {
        lemma_no_flags("t"@, words);
        assert("-n"@[0] == '-' && "-p"@[0] == '-');
        if words.len() > 1 {
            assert(last_word(plain_words(t)) == Some(words.last()));
            assert(select_layout_text(words) =~= "select-layout"@ + seq![' '] + words.last() + seq!['\n']);
        } else {
            assert(select_layout_text(words) =~= "select-layout"@ + seq!['\n']);
        }
    }
    if words.len() > 1 && (words[1] == seq!['-', 'n'] || words[1] == seq!['-', 'p']) {
        words_are_read("t"@, words, 1, 1);
        if has_flag(t, "-n"@) {
            flags_are_words("t"@, words, 1, "-n"@);
        }
    }
}

/// A channel is waited on if and only if no flag says otherwise: one that signals, locks or unlocks it
/// is told and not waited for.
pub proof fn channel_is_waited_on(command: Seq<char>, channel: Seq<char>)
    requires
        !(channel.len() > 0 && channel[0] == '-'),
    ensures
        wait_request(seq![command, channel]) == Some(("wait-for"@ + seq![' '] + channel + seq!['\n'], true)),
        wait_request(seq![command, seq!['-', 'S'], channel]) == Some(
            ("wait-for"@ + seq![' ', '-', 'S', ' '] + channel + seq!['\n'], false),
        ),
        wait_request(seq![command, seq!['-', 'L'], channel]) == Some(
            ("wait-for"@ + seq![' ', '-', 'L', ' '] + channel + seq!['\n'], false),
        ),
        wait_request(seq![command, seq!['-', 'U'], channel]) == Some(
            ("wait-for"@ + seq![' ', '-', 'U', ' '] + channel + seq!['\n'], false),
        ),
        wait_request(seq![command]) is None,
{
    lemma_literals();
    assert("-S"@ =~= seq!['-', 'S']);
    assert("-L"@ =~= seq!['-', 'L']);
    assert("-U"@ =~= seq!['-', 'U']);
    let w0 = command;
    lemma_no_flags(""@, seq![w0, channel]);
    assert(seq![w0, channel].skip(1) =~= seq![channel]);
    assert("-S"@[0] == '-' && "-L"@[0] == '-' && "-U"@[0] == '-');
    assert((wait_request(seq![w0, channel])->0).0 =~= "wait-for"@ + seq![' '] + channel + seq!['\n']);
    lemma_one_flag(w0, 'S', channel);
    lemma_one_flag(w0, 'L', channel);
    lemma_one_flag(w0, 'U', channel);
    assert(seq!['-', 'S'][1] == 'S' && seq!['-', 'L'][1] == 'L' && seq!['-', 'U'][1] == 'U');
    assert((wait_request(seq![w0, seq!['-', 'S'], channel])->0).0 =~= "wait-for"@ + seq![' ', '-', 'S', ' ']
        + channel + seq!['\n']);
    assert((wait_request(seq![w0, seq!['-', 'L'], channel])->0).0 =~= "wait-for"@ + seq![' ', '-', 'L', ' ']
        + channel + seq!['\n']);
    assert((wait_request(seq![w0, seq!['-', 'U'], channel])->0).0 =~= "wait-for"@ + seq![' ', '-', 'U', ' ']
        + channel + seq!['\n']);
    lemma_no_flags(""@, seq![w0]);
    assert(seq![w0].skip(1) =~= Seq::empty());
}

proof fn lemma_one_flag(w0: Seq<char>, c: char, channel: Seq<char>)
    requires
        !(channel.len() > 0 && channel[0] == '-'),
    ensures
        ({
            let t = tokens(""@, seq![w0, seq!['-', c], channel], 1);
            &&& last_word(plain_words(t)) == Some(channel)
            &&& forall|f: Seq<char>|
                f.len() > 0 && f[0] == '-' ==> #[trigger] has_flag(t, f) == (f == seq!['-', c])
        }),
{
    lemma_literals();
    let words = seq![w0, seq!['-', c], channel];
    let t = tokens(""@, words, 1);
    let a = TokenView { word: seq!['-', c], value: None };
    let b = TokenView { word: channel, value: None };
    assert(t =~= seq![a, b]) by {
        assert(!is_flag_of(words[1], ""@));
        assert(!is_flag_of(words[2], ""@));
        assert(tokens(""@, words, 3) =~= Seq::empty());
        assert(tokens(""@, words, 2) =~= seq![b]);
    }
    assert(t.drop_last() =~= seq![a]);
    assert(t.last() == b);
    assert(last_word(plain_words(t)) == Some(channel));
    assert forall|f: Seq<char>| f.len() > 0 && f[0] == '-' implies #[trigger] has_flag(t, f) == (f == seq![
        '-',
        c,
    ]) by {
        assert(t[0].word == seq!['-', c] && t[1].word == channel);
    }
}

/// A pane that is joined tells from where and to where, each under its flag, and its direction.
pub proof fn join_tells_its_ends(source: Seq<char>, target: Seq<char>)
    requires
        source.len() > 0,
        target.len() > 0,
    ensures
        join_text(source, target, true) == "join-pane"@ + seq![' ', '-', 'h', ' ', '-', 's', ' '] + source
            + seq![' ', '-', 't', ' '] + target + seq!['\n'],
        join_text(source, target, false) == "join-pane"@ + seq![' ', '-', 's', ' '] + source + seq![
            ' ',
            '-',
            't',
            ' ',
        ] + target + seq!['\n'],
        join_text(Seq::empty(), target, false) == "join-pane"@ + seq![' ', '-', 't', ' '] + target + seq![
            '\n',
        ],
        join_text(source, Seq::empty(), false) == "join-pane"@ + seq![' ', '-', 's', ' '] + source + seq![
            '\n',
        ],
{
    lemma_literals();
    assert(join_text(source, target, true) =~= "join-pane"@ + seq![' ', '-', 'h', ' ', '-', 's', ' ']
        + source + seq![' ', '-', 't', ' '] + target + seq!['\n']);
    assert(join_text(source, target, false) =~= "join-pane"@ + seq![' ', '-', 's', ' '] + source + seq![
        ' ',
        '-',
        't',
        ' ',
    ] + target + seq!['\n']);
    assert(join_text(Seq::empty(), target, false) =~= "join-pane"@ + seq![' ', '-', 't', ' '] + target
        + seq!['\n']);
    assert(join_text(source, Seq::empty(), false) =~= "join-pane"@ + seq![' ', '-', 's', ' '] + source
        + seq!['\n']);
}

/// A paste buffer is set under its name where it has one, and to the text behind it.
pub proof fn buffer_is_set_to_its_text(name: Seq<char>, data: Seq<char>)
    ensures
        set_buffer_text(None, None) == "set-buffer"@ + seq!['\n'],
        set_buffer_text(None, Some(data)) == "set-buffer"@ + seq![' '] + data + seq!['\n'],
        set_buffer_text(Some(name), Some(data)) == "set-buffer"@ + seq![' ', '-', 'b', ' '] + name + seq![' ']
            + data + seq!['\n'],
{
    lemma_literals();
    assert(set_buffer_text(None, None) =~= "set-buffer"@ + seq!['\n']);
    assert(set_buffer_text(None, Some(data)) =~= "set-buffer"@ + seq![' '] + data + seq!['\n']);
    assert(set_buffer_text(Some(name), Some(data)) =~= "set-buffer"@ + seq![' ', '-', 'b', ' '] + name
        + seq![' '] + data + seq!['\n']);
}

/// A word that is sent whole stands between quotes if it holds a blank, or a quote where that is
/// asked for, and else as it is; the words keep their number and their places.
pub proof fn words_are_quoted_if_needed(words: Seq<Seq<char>>, quotes_too: bool, i: int)
    requires
        0 <= i < words.len(),
    ensures
        line_words(words, quotes_too).len() == words.len(),
        line_words(words, quotes_too)[i] == (if (exists|k: int|
            0 <= k < words[i].len() && (words[i][k] == ' ' || (quotes_too && words[i][k] == '"'))) {
            in_quotes(words[i])
        } else {
            words[i]
        }),
{
    let w = words[i];
    assert(line_words(words, quotes_too)[i] == line_word(w, quotes_too));
    if w.contains(' ') {
        let k = choose|k: int| 0 <= k < w.len() && w[k] == ' ';
        assert(w[k] == ' ');
    }
    if quotes_too && w.contains('"') {
        let k = choose|k: int| 0 <= k < w.len() && w[k] == '"';
        assert(w[k] == '"');
    }
}

} // verus!
