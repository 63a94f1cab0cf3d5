//! What holds of the lines that are sent for commands with options.

use vstd::prelude::*;
use crate::cli::commands::{
    display_message_prints, display_message_text, key_pieces, last_argument, last_format, last_is,
    message_words, new_window_prints, new_window_text, only_if, opt_bare, opt_quoted_piece, rest_piece,
    send_keys_text, size_piece, split_window_prints, split_window_text,
};
use crate::cli::word_laws::{
    bare_flags_are_read, flags_are_words, leading_flags_are_words, plain_words_are_read, words_are_read,
};
use crate::cli::words::{
    dashed, has_flag, in_quotes, is_flag_of, last_value, leading_flags, rest_from, tokens, unquoted,
    TokenView,
};
use crate::text::{has_suffix, joined};

verus! {

proof fn lemma_literals()
    ensures
        "split-window "@.len() == 13 && "split-window "@[0] == 's' && "split-window "@[1] == 'p' && "split-window "@[2] == 'l' && "split-window "@[3] == 'i' && "split-window "@[4] == 't' && "split-window "@[5] == '-' && "split-window "@[6] == 'w' && "split-window "@[7] == 'i' && "split-window "@[8] == 'n' && "split-window "@[9] == 'd' && "split-window "@[10] == 'o' && "split-window "@[11] == 'w' && "split-window "@[12] == ' ',
        "new-window"@.len() == 10 && "new-window"@[0] == 'n' && "new-window"@[1] == 'e' && "new-window"@[2] == 'w' && "new-window"@[3] == '-' && "new-window"@[4] == 'w' && "new-window"@[5] == 'i' && "new-window"@[6] == 'n' && "new-window"@[7] == 'd' && "new-window"@[8] == 'o' && "new-window"@[9] == 'w',
        "send-keys"@.len() == 9 && "send-keys"@[0] == 's' && "send-keys"@[1] == 'e' && "send-keys"@[2] == 'n' && "send-keys"@[3] == 'd' && "send-keys"@[4] == '-' && "send-keys"@[5] == 'k' && "send-keys"@[6] == 'e' && "send-keys"@[7] == 'y' && "send-keys"@[8] == 's',
        "display-message"@.len() == 15 && "display-message"@[0] == 'd' && "display-message"@[1] == 'i' && "display-message"@[2] == 's' && "display-message"@[3] == 'p' && "display-message"@[4] == 'l' && "display-message"@[5] == 'a' && "display-message"@[6] == 'y' && "display-message"@[7] == '-' && "display-message"@[8] == 'm' && "display-message"@[9] == 'e' && "display-message"@[10] == 's' && "display-message"@[11] == 's' && "display-message"@[12] == 'a' && "display-message"@[13] == 'g' && "display-message"@[14] == 'e',
        "send-paste "@.len() == 11 && "send-paste "@[0] == 's' && "send-paste "@[1] == 'e' && "send-paste "@[2] == 'n' && "send-paste "@[3] == 'd' && "send-paste "@[4] == '-' && "send-paste "@[5] == 'p' && "send-paste "@[6] == 'a' && "send-paste "@[7] == 's' && "send-paste "@[8] == 't' && "send-paste "@[9] == 'e' && "send-paste "@[10] == ' ',
        "-h"@.len() == 2 && "-h"@[0] == '-' && "-h"@[1] == 'h',
        "-v"@.len() == 2 && "-v"@[0] == '-' && "-v"@[1] == 'v',
        "-d"@.len() == 2 && "-d"@[0] == '-' && "-d"@[1] == 'd',
        "-P"@.len() == 2 && "-P"@[0] == '-' && "-P"@[1] == 'P',
        "-p"@.len() == 2 && "-p"@[0] == '-' && "-p"@[1] == 'p',
        "-l"@.len() == 2 && "-l"@[0] == '-' && "-l"@[1] == 'l',
        "-X"@.len() == 2 && "-X"@[0] == '-' && "-X"@[1] == 'X',
        "-R"@.len() == 2 && "-R"@[0] == '-' && "-R"@[1] == 'R',
        "-F"@.len() == 2 && "-F"@[0] == '-' && "-F"@[1] == 'F',
        "-c"@.len() == 2 && "-c"@[0] == '-' && "-c"@[1] == 'c',
        "-n"@.len() == 2 && "-n"@[0] == '-' && "-n"@[1] == 'n',
        "-t"@.len() == 2 && "-t"@[0] == '-' && "-t"@[1] == 't',
        "-a"@.len() == 2 && "-a"@[0] == '-' && "-a"@[1] == 'a',
        "-E"@.len() == 2 && "-E"@[0] == '-' && "-E"@[1] == 'E',
        "-s"@.len() == 2 && "-s"@[0] == '-' && "-s"@[1] == 's',
        "-w"@.len() == 2 && "-w"@[0] == '-' && "-w"@[1] == 'w',
        "-b"@.len() == 2 && "-b"@[0] == '-' && "-b"@[1] == 'b',
        "--"@.len() == 2 && "--"@[0] == '-' && "--"@[1] == '-',
        " -d"@.len() == 3 && " -d"@[0] == ' ' && " -d"@[1] == '-' && " -d"@[2] == 'd',
        " -P"@.len() == 3 && " -P"@[0] == ' ' && " -P"@[1] == '-' && " -P"@[2] == 'P',
        " -F"@.len() == 3 && " -F"@[0] == ' ' && " -F"@[1] == '-' && " -F"@[2] == 'F',
        " -c"@.len() == 3 && " -c"@[0] == ' ' && " -c"@[1] == '-' && " -c"@[2] == 'c',
        " -n"@.len() == 3 && " -n"@[0] == ' ' && " -n"@[1] == '-' && " -n"@[2] == 'n',
        " -l"@.len() == 3 && " -l"@[0] == ' ' && " -l"@[1] == '-' && " -l"@[2] == 'l',
        " -p"@.len() == 3 && " -p"@[0] == ' ' && " -p"@[1] == '-' && " -p"@[2] == 'p',
        " -X"@.len() == 3 && " -X"@[0] == ' ' && " -X"@[1] == '-' && " -X"@[2] == 'X',
        " -t"@.len() == 3 && " -t"@[0] == ' ' && " -t"@[1] == '-' && " -t"@[2] == 't',
        " -d "@.len() == 4 && " -d "@[0] == ' ' && " -d "@[1] == '-' && " -d "@[2] == 'd' && " -d "@[3] == ' ',
        "%"@.len() == 1 && "%"@[0] == '%',
        "Fcplte"@.len() == 6 && "Fcplte"@[0] == 'F' && "Fcplte"@[1] == 'c' && "Fcplte"@[2] == 'p' && "Fcplte"@[3] == 'l' && "Fcplte"@[4] == 't' && "Fcplte"@[5] == 'e',
        "nFcteS"@.len() == 6 && "nFcteS"@[0] == 'n' && "nFcteS"@[1] == 'F' && "nFcteS"@[2] == 'c' && "nFcteS"@[3] == 't' && "nFcteS"@[4] == 'e' && "nFcteS"@[5] == 'S',
        "tN"@.len() == 2 && "tN"@[0] == 't' && "tN"@[1] == 'N',
        "tdI"@.len() == 3 && "tdI"@[0] == 't' && "tdI"@[1] == 'd' && "tdI"@[2] == 'I',
        " "@.len() == 1 && " "@[0] == ' ',
        "t"@.len() == 1 && "t"@[0] == 't',
{
    reveal_strlit("split-window ");
    reveal_strlit("new-window");
    reveal_strlit("send-keys");
    reveal_strlit("display-message");
    reveal_strlit("send-paste ");
    reveal_strlit("-h");
    reveal_strlit("-v");
    reveal_strlit("-d");
    reveal_strlit("-P");
    reveal_strlit("-p");
    reveal_strlit("-l");
    reveal_strlit("-X");
    reveal_strlit("-R");
    reveal_strlit("-F");
    reveal_strlit("-c");
    reveal_strlit("-n");
    reveal_strlit("-t");
    reveal_strlit("-a");
    reveal_strlit("-E");
    reveal_strlit("-s");
    reveal_strlit("-w");
    reveal_strlit("-b");
    reveal_strlit("--");
    reveal_strlit(" -d");
    reveal_strlit(" -P");
    reveal_strlit(" -F");
    reveal_strlit(" -c");
    reveal_strlit(" -n");
    reveal_strlit(" -l");
    reveal_strlit(" -p");
    reveal_strlit(" -X");
    reveal_strlit(" -t");
    reveal_strlit(" -d ");
    reveal_strlit("%");
    reveal_strlit("Fcplte");
    reveal_strlit("nFcteS");
    reveal_strlit("tN");
    reveal_strlit("tdI");
    reveal_strlit(" ");
    reveal_strlit("t");
}

/// Whether a flag of a split takes the next word for its value: the format, the directory, the share,
/// the size, the target and a variable.
pub open spec fn split_takes_value(w: Seq<char>) -> bool {
    w.len() == 2 && w[0] == '-' && (w[1] == 'F' || w[1] == 'c' || w[1] == 'p' || w[1] == 'l' || w[1] == 't'
        || w[1] == 'e')
}

/// Whether the words behind the first are flags without values, up to a place.
pub open spec fn split_flags_up_to(words: Seq<Seq<char>>, n: int) -> bool {
    &&& 1 <= n <= words.len()
    &&& forall|j: int|
        1 <= j < n ==> (#[trigger] words[j]).len() > 1 && words[j][0] == '-' && words[j][1] != '-'
            && !split_takes_value(words[j])
    &&& n < words.len() ==> !(words[n].len() > 0 && words[n][0] == '-')
}

proof fn lemma_last_is(t: Seq<TokenView>, yes: Seq<char>, no: Seq<char>, i: int)
    requires
        0 <= i < t.len(),
        yes != no,
    ensures
        t[i].word == yes && (forall|j: int| i < j < t.len() ==> (#[trigger] t[j]).word != no) ==> last_is(
            t,
            yes,
            no,
        ),
        t[i].word == no && (forall|j: int| i < j < t.len() ==> (#[trigger] t[j]).word != yes) ==> !last_is(
            t,
            yes,
            no,
        ),
    decreases t.len(),
{
    let front = t.drop_last();
    if i < t.len() - 1 {
        assert(t[t.len() - 1] == t.last());
        lemma_last_is(front, yes, no, i);
        assert(forall|j: int| i < j < front.len() ==> #[trigger] front[j] == t[j]);
    }
}

proof fn lemma_last_is_there(t: Seq<TokenView>, yes: Seq<char>, no: Seq<char>)
    requires
        last_is(t, yes, no),
    ensures
        has_flag(t, yes),
    decreases t.len(),
{
    if t.last().word == yes {
        assert(t[t.len() - 1].word == yes);
    } else {
        lemma_last_is_there(t.drop_last(), yes, no);
        let f = t.drop_last();
        let n = choose|n: int| 0 <= n < f.len() && (#[trigger] f[n]).word == yes;
        assert(t[n] == f[n]);
    }
}

proof fn lemma_split_begin(words: Seq<Seq<char>>)
    ensures
        ({
            let t = leading_flags("Fcplte"@, words, 1);
            split_window_text(words).take(15) == "split-window "@ + (if last_is(t, "-h"@, "-v"@) {
                seq!['-', 'h']
            } else {
                seq!['-', 'v']
            })
        }),
        split_window_text(words).len() >= 15,
{
    lemma_literals();
    let t = leading_flags("Fcplte"@, words, 1);
    let way = if last_is(t, "-h"@, "-v"@) {
        seq!['-', 'h']
    } else {
        seq!['-', 'v']
    };
    assert("-h"@ =~= seq!['-', 'h']);
    assert("-v"@ =~= seq!['-', 'v']);
    assert(split_window_text(words).take(15) =~= "split-window "@ + way);
}

/// Without `-h` among its words a split puts the new pane below; with it and without `-v`, beside.
pub proof fn split_goes_its_way(words: Seq<Seq<char>>)
    ensures
        (forall|j: int| 1 <= j < words.len() ==> #[trigger] words[j] != seq!['-', 'h'])
            ==> split_window_text(words).take(15) == "split-window "@ + seq!['-', 'v'],
        words.len() > 1 && words[1] == seq!['-', 'h'] && (forall|j: int|
            1 <= j < words.len() ==> #[trigger] words[j] != seq!['-', 'v']) ==> split_window_text(
            words,
        ).take(15) == "split-window "@ + seq!['-', 'h'],
{
    lemma_literals();
    assert("-h"@ =~= seq!['-', 'h']);
    assert("-v"@ =~= seq!['-', 'v']);
    lemma_split_begin(words);
    let t = leading_flags("Fcplte"@, words, 1);
    if last_is(t, "-h"@, "-v"@) {
        lemma_last_is_there(t, "-h"@, "-v"@);
        leading_flags_are_words("Fcplte"@, words, 1, "-h"@);
    }
    if words.len() > 1 && words[1] == seq!['-', 'h'] && (forall|j: int|
        1 <= j < words.len() ==> #[trigger] words[j] != seq!['-', 'v']) {
        lemma_split_values(words[1]);
        assert(words[1] != "--"@) by {
            assert("--"@[1] == '-');
        }
        assert(t[0].word == words[1]);
        assert forall|j: int| 0 < j < t.len() implies (#[trigger] t[j]).word != "-v"@ by {
            if t[j].word == "-v"@ {
                assert(has_flag(t, "-v"@));
                leading_flags_are_words("Fcplte"@, words, 1, "-v"@);
            }
        }
        lemma_last_is(t, "-h"@, "-v"@, 0);
    }
}

proof fn lemma_split_values(w: Seq<char>)
    ensures
        is_flag_of(w, "Fcplte"@) == split_takes_value(w),
{
    lemma_literals();
    let s = "Fcplte"@;
    if is_flag_of(w, s) {
        let k = choose|k: int| 0 <= k < s.len() && s[k] == w[1];
        assert(k == 0 || k == 1 || k == 2 || k == 3 || k == 4 || k == 5);
    }
    if split_takes_value(w) {
        assert(s[0] == 'F' && s[1] == 'c' && s[2] == 'p' && s[3] == 'l' && s[4] == 't' && s[5] == 'e');
        assert(s.contains(w[1]));
    }
}

/// Of `-h` and `-v` the last counts.
pub proof fn last_way_counts(words: Seq<Seq<char>>, n: int, i: int)
    requires
        split_flags_up_to(words, n),
        1 <= i < n,
        words[i] == seq!['-', 'h'] || words[i] == seq!['-', 'v'],
        forall|j: int|
            i < j < n ==> #[trigger] words[j] != seq!['-', 'h'] && words[j] != seq!['-', 'v'],
    ensures
        split_window_text(words).take(15) == "split-window "@ + words[i],
{
    lemma_literals();
    assert("-h"@ =~= seq!['-', 'h']);
    assert("-v"@ =~= seq!['-', 'v']);
    lemma_split_begin(words);
    lemma_bare(words, n);
    let t = leading_flags("Fcplte"@, words, 1);
    assert(t[i - 1].word == words[i]);
    assert forall|j: int| i - 1 < j < t.len() implies (#[trigger] t[j]).word != "-h"@ && t[j].word
        != "-v"@ by {
        assert(t[j].word == words[j + 1]);
    }
    lemma_last_is(t, "-h"@, "-v"@, i - 1);
}

proof fn lemma_bare(words: Seq<Seq<char>>, n: int)
    requires
        split_flags_up_to(words, n),
    ensures
        leading_flags("Fcplte"@, words, 1) == Seq::new(
            (n - 1) as nat,
            |j: int| TokenView { word: words[1 + j], value: None },
        ),
        rest_from("Fcplte"@, words, 1) == n,
{
    lemma_literals();
    assert forall|j: int| 1 <= j < n implies dashed(#[trigger] words[j]) && words[j] != "--"@
        && !is_flag_of(words[j], "Fcplte"@) by {
        lemma_split_values(words[j]);
        assert("--"@[1] == '-');
    }
    if n < words.len() {
        assert("--"@[0] == '-');
    }
    bare_flags_are_read("Fcplte"@, words, 1, n);
}

/// Whether a line goes on with `-d` and `-P` where they are asked for, and with neither behind them.
pub open spec fn tells_flags(line: Seq<char>, head: Seq<char>, d: bool, p: bool) -> bool {
    exists|tail: Seq<char>|
        line == head + (if d {
            seq![' ', '-', 'd']
        } else {
            Seq::empty()
        }) + (if p {
            seq![' ', '-', 'P']
        } else {
            Seq::empty()
        }) + tail && #[trigger] tells_neither(tail)
}

/// Whether what is left of a line begins neither with `-d` nor with `-P`.
pub open spec fn tells_neither(tail: Seq<char>) -> bool {
    tail.len() > 0 && !(tail.len() >= 3 && tail[0] == ' ' && tail[1] == '-' && (tail[2] == 'd' || tail[2]
        == 'P'))
}

/// A split tells that the focus stays and that the pane is to be described if and only if its flags
/// say so, and its answer is printed if and only if the pane is to be described.
pub proof fn split_tells_its_flags(words: Seq<Seq<char>>, n: int)
    requires
        split_flags_up_to(words, n),
    ensures
        ({
            let d = exists|j: int| 1 <= j < n && #[trigger] words[j] == seq!['-', 'd'];
            let p = exists|j: int| 1 <= j < n && #[trigger] words[j] == seq!['-', 'P'];
            let line = split_window_text(words);
            &&& tells_flags(line, line.take(15), d, p)
            &&& split_window_prints(words) == p
        }),
{
    lemma_literals();
    assert(" -d"@ =~= seq![' ', '-', 'd']);
    assert(" -P"@ =~= seq![' ', '-', 'P']);
    assert("-d"@ =~= seq!['-', 'd']);
    assert("-P"@ =~= seq!['-', 'P']);
    lemma_split_begin(words);
    lemma_bare(words, n);
    let t = leading_flags("Fcplte"@, words, 1);
    let d = exists|j: int| 1 <= j < n && #[trigger] words[j] == seq!['-', 'd'];
    let p = exists|j: int| 1 <= j < n && #[trigger] words[j] == seq!['-', 'P'];
    if has_flag(t, "-d"@) {
        let k = choose|k: int| 0 <= k < t.len() && (#[trigger] t[k]).word == "-d"@;
        assert(words[k + 1] == seq!['-', 'd']);
    }
    if has_flag(t, "-P"@) {
        let k = choose|k: int| 0 <= k < t.len() && (#[trigger] t[k]).word == "-P"@;
        assert(words[k + 1] == seq!['-', 'P']);
    }
    if d {
        let j = choose|j: int| 1 <= j < n && #[trigger] words[j] == seq!['-', 'd'];
        assert(t[j - 1].word == "-d"@);
    }
    if p {
        let j = choose|j: int| 1 <= j < n && #[trigger] words[j] == seq!['-', 'P'];
        assert(t[j - 1].word == "-P"@);
    }
    lemma_no_size(t);
    let f = opt_quoted_piece(" -F"@, opt_bare(last_format(t)));
    let c = opt_quoted_piece(" -c"@, opt_bare(last_value(t, "-c"@)));
    let r = rest_piece(words.skip(rest_from("Fcplte"@, words, 1)));
    let tail = f + c + size_piece(t) + r + seq!['\n'];
    let line = split_window_text(words);
    let way = if last_is(t, "-h"@, "-v"@) {
        "-h"@
    } else {
        "-v"@
    };
    assert(line.take(15) =~= "split-window "@ + way) by {
        assert("-h"@ =~= seq!['-', 'h']);
        assert("-v"@ =~= seq!['-', 'v']);
    }
    lemma_tail(f, c, size_piece(t), r);
    assert(line =~= line.take(15) + (if d {
        seq![' ', '-', 'd']
    } else {
        Seq::empty()
    }) + (if p {
        seq![' ', '-', 'P']
    } else {
        Seq::empty()
    }) + tail) by {
        lemma_line_of("split-window "@ + way, d, p, f, c, size_piece(t), r);
    }
}

proof fn lemma_line_of(
    head: Seq<char>,
    d: bool,
    p: bool,
    f: Seq<char>,
    c: Seq<char>,
    s: Seq<char>,
    r: Seq<char>,
)
    ensures
        ({
            let a = if d {
                seq![' ', '-', 'd']
            } else {
                Seq::empty()
            };
            let b = if p {
                seq![' ', '-', 'P']
            } else {
                Seq::empty()
            };
            head + a + b + f + c + s + r + seq!['\n'] == head + a + b + (f + c + s + r + seq!['\n'])
        }),
{
    let a = if d {
        seq![' ', '-', 'd']
    } else {
        Seq::empty()
    };
    let b = if p {
        seq![' ', '-', 'P']
    } else {
        Seq::empty()
    };
    assert(head + a + b + f + c + s + r + seq!['\n'] =~= head + a + b + (f + c + s + r + seq!['\n']));
}

proof fn lemma_no_size(t: Seq<TokenView>)
    ensures
        size_piece(t).len() > 0 ==> size_piece(t).len() >= 4 && size_piece(t)[0] == ' ' && size_piece(t)[1]
            == '-' && (size_piece(t)[2] == 'l' || size_piece(t)[2] == 'p'),
    decreases t.len(),
{
    lemma_literals();
    if t.len() > 0 {
        lemma_no_size(t.drop_last());
    }
}

proof fn lemma_tail(f: Seq<char>, c: Seq<char>, s: Seq<char>, r: Seq<char>)
    requires
        f.len() > 0 ==> f.len() >= 3 && f[2] == 'F',
        c.len() > 0 ==> c.len() >= 3 && (c[2] == 'c' || c[2] == 'n'),
        s.len() > 0 ==> s.len() >= 3 && (s[2] == 'l' || s[2] == 'p' || s[2] == 'c'),
        r.len() > 0 ==> r.len() >= 2 && r[1] != '-',
    ensures
        tells_neither(f + c + s + r + seq!['\n']),
{
    let t = f + c + s + r + seq!['\n'];
    if f.len() > 0 {
        assert(t[2] == f[2]);
    } else if c.len() > 0 {
        assert(t[2] == c[2]);
    } else if s.len() > 0 {
        assert(t[2] == s[2]);
    } else if r.len() > 0 {
        assert(t[1] == r[1]);
    }
}

/// Of the sizes that a split is given the last counts: a number of cells, or a share where it says so
/// or ends with a percent sign. Other words do not change it.
pub proof fn last_size_counts(t: Seq<TokenView>, more: TokenView)
    ensures
        size_piece(Seq::empty()) == Seq::<char>::empty(),
        ({
            let cells = more.word == seq!['-', 'l'];
            let share = more.word == seq!['-', 'p'];
            size_piece(t.push(more)) == (if (cells || share) && more.value is Some {
                let v = more.value->0;
                if share || (v.len() > 0 && v.last() == '%') {
                    seq![' ', '-', 'p', ' '] + v
                } else {
                    seq![' ', '-', 'l', ' '] + v
                }
            } else {
                size_piece(t)
            })
        }),
{
    lemma_literals();
    assert("-l"@ =~= seq!['-', 'l']);
    assert("-p"@ =~= seq!['-', 'p']);
    assert(t.push(more).drop_last() =~= t);
    if more.value is Some {
        let v = more.value->0;
        if v.len() > 0 {
            assert(v.skip(v.len() - 1)[0] == v.last());
            if v.last() == '%' {
                assert(v.skip(v.len() - 1) =~= "%"@);
            }
        }
        assert(has_suffix(v, "%"@) == (v.len() > 0 && v.last() == '%'));
        assert(" -p"@ + seq![' '] + v =~= seq![' ', '-', 'p', ' '] + v);
        assert(" -l"@ + seq![' '] + v =~= seq![' ', '-', 'l', ' '] + v);
    }
}

/// Whether a part stands on a line.
pub open spec fn stands_on(line: Seq<char>, part: Seq<char>) -> bool {
    exists|a: Seq<char>, b: Seq<char>| line == #[trigger] ((a + part) + b)
}

/// A split tells its directory and its format under their flags, its size, and what is to run, each
/// as it was given.
pub proof fn split_tells_its_values(words: Seq<Seq<char>>)
    ensures
        ({
            let t = leading_flags("Fcplte"@, words, 1);
            let line = split_window_text(words);
            let run = joined(words.skip(rest_from("Fcplte"@, words, 1)), seq![' ']);
            &&& last_value(t, seq!['-', 'c']) matches Some(v) ==> stands_on(
                line,
                seq![' ', '-', 'c', ' '] + in_quotes(unquoted(v)),
            )
            &&& last_format(t) matches Some(v) ==> stands_on(
                line,
                seq![' ', '-', 'F', ' '] + in_quotes(unquoted(v)),
            )
            &&& stands_on(line, size_piece(t))
            &&& run.len() > 0 ==> has_suffix(line, seq![' '] + in_quotes(run) + seq!['\n'])
        }),
{
    lemma_literals();
    assert("-c"@ =~= seq!['-', 'c']);
    assert(" "@ =~= seq![' ']);
    let t = leading_flags("Fcplte"@, words, 1);
    let line = split_window_text(words);
    let head = "split-window "@ + (if last_is(t, "-h"@, "-v"@) {
        "-h"@
    } else {
        "-v"@
    }) + only_if(has_flag(t, "-d"@), " -d"@) + only_if(has_flag(t, "-P"@), " -P"@);
    let f = opt_quoted_piece(" -F"@, opt_bare(last_format(t)));
    let c = opt_quoted_piece(" -c"@, opt_bare(last_value(t, "-c"@)));
    let s = size_piece(t);
    let r = rest_piece(words.skip(rest_from("Fcplte"@, words, 1)));
    lemma_stands(head, f, c, s, r);
    if let Some(v) = last_value(t, "-c"@) {
        assert(c =~= seq![' ', '-', 'c', ' '] + in_quotes(unquoted(v)));
    }
    if let Some(v) = last_format(t) {
        assert(f =~= seq![' ', '-', 'F', ' '] + in_quotes(unquoted(v)));
    }
    let end = r + seq!['\n'];
    assert(line.skip(line.len() - end.len()) =~= end);
}

proof fn lemma_stands(head: Seq<char>, f: Seq<char>, c: Seq<char>, s: Seq<char>, r: Seq<char>)
    ensures
        ({
            let line = head + f + c + s + r + seq!['\n'];
            stands_on(line, f) && stands_on(line, c) && stands_on(line, s)
        }),
{
    let line = head + f + c + s + r + seq!['\n'];
    assert(line =~= (head + f) + (c + s + r + seq!['\n']));
    assert(line =~= ((head + f) + c) + (s + r + seq!['\n']));
    assert(line =~= ((head + f + c) + s) + (r + seq!['\n']));
}

/// Whether a flag of a new window takes the next word for its value: the name, the format, the
/// directory, the target, a variable and a style.
pub open spec fn window_takes_value(w: Seq<char>) -> bool {
    w.len() == 2 && w[0] == '-' && (w[1] == 'n' || w[1] == 'F' || w[1] == 'c' || w[1] == 't' || w[1] == 'e'
        || w[1] == 'S')
}

/// Whether the words behind the first are flags without values, up to a place.
pub open spec fn window_flags_up_to(words: Seq<Seq<char>>, n: int) -> bool {
    &&& 1 <= n <= words.len()
    &&& forall|j: int|
        1 <= j < n ==> (#[trigger] words[j]).len() > 1 && words[j][0] == '-' && words[j][1] != '-'
            && !window_takes_value(words[j])
    &&& n < words.len() ==> !(words[n].len() > 0 && words[n][0] == '-')
}

/// A new window tells that the focus stays and that it is to be described if and only if its flags
/// say so, and its answer is printed if and only if it is to be described.
pub proof fn window_tells_its_flags(words: Seq<Seq<char>>, n: int)
    requires
        window_flags_up_to(words, n),
    ensures
        ({
            let d = exists|j: int| 1 <= j < n && #[trigger] words[j] == seq!['-', 'd'];
            let p = exists|j: int| 1 <= j < n && #[trigger] words[j] == seq!['-', 'P'];
            &&& tells_flags(new_window_text(words), "new-window"@, d, p)
            &&& new_window_prints(words) == p
        }),
{
    lemma_literals();
    assert(" -d"@ =~= seq![' ', '-', 'd']);
    assert(" -P"@ =~= seq![' ', '-', 'P']);
    assert("-d"@ =~= seq!['-', 'd']);
    assert("-P"@ =~= seq!['-', 'P']);
    assert forall|j: int| 1 <= j < n implies dashed(#[trigger] words[j]) && words[j] != "--"@
        && !is_flag_of(words[j], "nFcteS"@) by {
        let s = "nFcteS"@;
        if is_flag_of(words[j], s) {
            let k = choose|k: int| 0 <= k < s.len() && s[k] == words[j][1];
            assert(k == 0 || k == 1 || k == 2 || k == 3 || k == 4 || k == 5);
        }
        assert("--"@[1] == '-');
    }
    if n < words.len() {
        assert("--"@[0] == '-');
    }
    bare_flags_are_read("nFcteS"@, words, 1, n);
    let t = leading_flags("nFcteS"@, words, 1);
    let d = exists|j: int| 1 <= j < n && #[trigger] words[j] == seq!['-', 'd'];
    let p = exists|j: int| 1 <= j < n && #[trigger] words[j] == seq!['-', 'P'];
    if has_flag(t, "-d"@) {
        let k = choose|k: int| 0 <= k < t.len() && (#[trigger] t[k]).word == "-d"@;
        assert(words[k + 1] == seq!['-', 'd']);
    }
    if has_flag(t, "-P"@) {
        let k = choose|k: int| 0 <= k < t.len() && (#[trigger] t[k]).word == "-P"@;
        assert(words[k + 1] == seq!['-', 'P']);
    }
    if d {
        let j = choose|j: int| 1 <= j < n && #[trigger] words[j] == seq!['-', 'd'];
        assert(t[j - 1].word == "-d"@);
    }
    if p {
        let j = choose|j: int| 1 <= j < n && #[trigger] words[j] == seq!['-', 'P'];
        assert(t[j - 1].word == "-P"@);
    }
    let f = opt_quoted_piece(" -F"@, opt_bare(last_format(t)));
    let c = opt_quoted_piece(" -n"@, opt_bare(last_value(t, "-n"@)));
    let s = opt_quoted_piece(" -c"@, opt_bare(last_value(t, "-c"@)));
    let r = rest_piece(words.skip(rest_from("nFcteS"@, words, 1)));
    lemma_tail(f, c, s, r);
    lemma_line_of("new-window"@, d, p, f, c, s, r);
}

/// A new window tells its name, its directory and its format under their flags, and what is to run,
/// each as it was given.
pub proof fn window_tells_its_values(words: Seq<Seq<char>>)
    ensures
        ({
            let t = leading_flags("nFcteS"@, words, 1);
            let line = new_window_text(words);
            let run = joined(words.skip(rest_from("nFcteS"@, words, 1)), seq![' ']);
            &&& last_value(t, seq!['-', 'n']) matches Some(v) ==> stands_on(
                line,
                seq![' ', '-', 'n', ' '] + in_quotes(unquoted(v)),
            )
            &&& last_value(t, seq!['-', 'c']) matches Some(v) ==> stands_on(
                line,
                seq![' ', '-', 'c', ' '] + in_quotes(unquoted(v)),
            )
            &&& last_format(t) matches Some(v) ==> stands_on(
                line,
                seq![' ', '-', 'F', ' '] + in_quotes(unquoted(v)),
            )
            &&& run.len() > 0 ==> has_suffix(line, seq![' '] + in_quotes(run) + seq!['\n'])
        }),
{
    lemma_literals();
    assert("-c"@ =~= seq!['-', 'c']);
    assert("-n"@ =~= seq!['-', 'n']);
    assert(" "@ =~= seq![' ']);
    let t = leading_flags("nFcteS"@, words, 1);
    let line = new_window_text(words);
    let head = "new-window"@ + only_if(has_flag(t, "-d"@), " -d"@) + only_if(has_flag(t, "-P"@), " -P"@);
    let f = opt_quoted_piece(" -F"@, opt_bare(last_format(t)));
    let c = opt_quoted_piece(" -n"@, opt_bare(last_value(t, "-n"@)));
    let s = opt_quoted_piece(" -c"@, opt_bare(last_value(t, "-c"@)));
    let r = rest_piece(words.skip(rest_from("nFcteS"@, words, 1)));
    lemma_stands(head, f, c, s, r);
    if let Some(v) = last_value(t, "-c"@) {
        assert(s =~= seq![' ', '-', 'c', ' '] + in_quotes(unquoted(v)));
    }
    if let Some(v) = last_value(t, "-n"@) {
        assert(c =~= seq![' ', '-', 'n', ' '] + in_quotes(unquoted(v)));
    }
    if let Some(v) = last_format(t) {
        assert(f =~= seq![' ', '-', 'F', ' '] + in_quotes(unquoted(v)));
    }
    let end = r + seq!['\n'];
    assert(line.skip(line.len() - end.len()) =~= end);
}

/// Keys come on the line in their order, each behind a blank and between quotes where it holds a
/// blank, a tabulator or a quote.
pub proof fn keys_come_in_their_order(t: Seq<TokenView>, more: TokenView)
    ensures
        key_pieces(Seq::empty()) == Seq::<char>::empty(),
        more.value is None && !(more.word.len() > 0 && more.word[0] == '-') ==> key_pieces(t.push(more))
            == key_pieces(t) + seq![' '] + (if more.word.contains(' ') || more.word.contains('\t')
            || more.word.contains('"') {
            in_quotes(more.word)
        } else {
            more.word
        }),
        more.value is Some ==> key_pieces(t.push(more)) == key_pieces(t),
{
    lemma_literals();
    assert(t.push(more).drop_last() =~= t);
    if more.value is Some {
        assert(key_pieces(t) + Seq::<char>::empty() =~= key_pieces(t));
    } else if !(more.word.len() > 0 && more.word[0] == '-') {
        assert("-l"@[0] == '-' && "-X"@[0] == '-' && "-R"@[0] == '-');
        assert(key_pieces(t.push(more)) =~= key_pieces(t) + seq![' '] + (if more.word.contains(' ')
            || more.word.contains('\t') || more.word.contains('"') {
            in_quotes(more.word)
        } else {
            more.word
        }));
    }
}

/// Whether a word stands on a line of keys as it is.
pub open spec fn is_bare_key(w: Seq<char>) -> bool {
    !(w.len() > 0 && w[0] == '-') && !w.contains(' ') && !w.contains('\t') && !w.contains('"')
}

/// Keys that hold no blanks and no quotes are sent as they are, with a blank before each, and
/// literally if and only if the first word says so.
pub proof fn bare_keys_are_sent(words: Seq<Seq<char>>)
    requires
        words.len() > 0,
        forall|j: int| 1 <= j < words.len() ==> is_bare_key(#[trigger] words[j]),
    ensures
        send_keys_text(words) == joined(words.update(0, "send-keys"@), seq![' ']) + seq!['\n'],
{
    lemma_literals();
    plain_words_are_read("tN"@, words, 1);
    let t = tokens("tN"@, words, 1);
    assert forall|k: int| 0 <= k < t.len() implies (#[trigger] t[k]).word != "-l"@ && t[k].word != "-X"@ by {
        assert(t[k].word == words[k + 1]);
        assert(is_bare_key(words[k + 1]));
        assert("-l"@[0] == '-' && "-X"@[0] == '-');
    }
    lemma_bare_keys(words, words.len() as int);
    assert(t.take(t.len() as int) =~= t);
    let named = words.update(0, "send-keys"@);
    assert(named.take(named.len() as int) =~= named);
    assert(send_keys_text(words) =~= "send-keys"@ + key_pieces(t) + seq!['\n']);
}

proof fn lemma_bare_keys(words: Seq<Seq<char>>, n: int)
    requires
        1 <= n <= words.len(),
        forall|j: int| 1 <= j < words.len() ==> is_bare_key(#[trigger] words[j]),
    ensures
        "send-keys"@ + key_pieces(tokens("tN"@, words, 1).take(n - 1)) == joined(
            words.update(0, "send-keys"@).take(n),
            seq![' '],
        ),
    decreases n,
{
    plain_words_are_read("tN"@, words, 1);
    let t = tokens("tN"@, words, 1);
    let named = words.update(0, "send-keys"@);
    if n == 1 {
        assert(named.take(1)[0] == "send-keys"@);
        assert(t.take(0) =~= Seq::empty());
        assert("send-keys"@ + key_pieces(t.take(0)) =~= "send-keys"@);
    } else {
        lemma_bare_keys(words, n - 1);
        let more = t[n - 2];
        assert(more.word == words[n - 1]);
        assert(is_bare_key(words[n - 1]));
        keys_come_in_their_order(t.take(n - 2), more);
        assert(t.take(n - 1) =~= t.take(n - 2).push(more));
        assert(named.take(n).drop_last() =~= named.take(n - 1));
        assert(named.take(n).last() == words[n - 1]);
        assert("send-keys"@ + key_pieces(t.take(n - 1)) =~= joined(named.take(n), seq![' ']));
    }
}

/// Keys are sent literally, or as a command of copying, if and only if a flag says so: without the
/// flags' words there is no such flag on the line, and a first word that is one comes first.
pub proof fn key_flags_are_told(words: Seq<Seq<char>>)
    ensures
        ({
            let t = tokens("tN"@, words, 1);
            let l = has_flag(t, seq!['-', 'l']);
            let x = has_flag(t, seq!['-', 'X']);
            send_keys_text(words) == "send-keys"@ + (if l {
                seq![' ', '-', 'l']
            } else {
                Seq::empty()
            }) + (if x {
                seq![' ', '-', 'X']
            } else {
                Seq::empty()
            }) + key_pieces(t) + seq!['\n']
        }),
        words.len() > 1 && words[1] == seq!['-', 'l'] ==> send_keys_text(words).take(12) == "send-keys"@
            + seq![' ', '-', 'l'],
{
    lemma_literals();
    assert("-l"@ =~= seq!['-', 'l']);
    assert("-X"@ =~= seq!['-', 'X']);
    assert(" -l"@ =~= seq![' ', '-', 'l']);
    assert(" -X"@ =~= seq![' ', '-', 'X']);
    if words.len() > 1 && words[1] == seq!['-', 'l'] {
        words_are_read("tN"@, words, 1, 1);
        assert(send_keys_text(words).take(12) =~= "send-keys"@ + seq![' ', '-', 'l']);
    }
}

/// Whether a flag of a message takes the next word for its value: the target, the time and the input.
pub open spec fn message_takes_value(w: Seq<char>) -> bool {
    w.len() == 2 && w[0] == '-' && (w[1] == 't' || w[1] == 'd' || w[1] == 'I')
}

/// A message is printed if and only if `-p` is among the words and is no flag's value.
pub proof fn message_is_printed_if_asked(words: Seq<Seq<char>>)
    ensures
        (forall|j: int| 1 <= j < words.len() ==> #[trigger] words[j] != seq!['-', 'p'])
            ==> !display_message_prints(words),
        (exists|j: int|
            1 <= j < words.len() && #[trigger] words[j] == seq!['-', 'p'] && (j == 1
                || !message_takes_value(words[j - 1]))) ==> display_message_prints(words),
{
    lemma_literals();
    assert("-p"@ =~= seq!['-', 'p']);
    if display_message_prints(words) {
        flags_are_words("tdI"@, words, 1, "-p"@);
    }
    if exists|j: int|
        1 <= j < words.len() && #[trigger] words[j] == seq!['-', 'p'] && (j == 1 || !message_takes_value(
            words[j - 1],
        )) {
        let j = choose|j: int|
            1 <= j < words.len() && #[trigger] words[j] == seq!['-', 'p'] && (j == 1
                || !message_takes_value(words[j - 1]));
        if j > 1 && is_flag_of(words[j - 1], "tdI"@) {
            let k = choose|k: int| 0 <= k < "tdI"@.len() && "tdI"@[k] == words[j - 1][1];
            assert(k == 0 || k == 1 || k == 2);
        }
        words_are_read("tdI"@, words, 1, j);
    }
}

/// A message without flags is sent between quotes, its words with a blank between each two; with
/// `-p` in front it is the same message, to be printed.
pub proof fn message_is_sent_whole(words: Seq<Seq<char>>)
    requires
        words.len() > 0,
        forall|j: int| 1 <= j < words.len() ==> !((#[trigger] words[j]).len() > 0 && words[j][0] == '-'),
    ensures
        display_message_text(words) == "display-message"@ + seq![' '] + in_quotes(
            joined(words.skip(1), seq![' ']),
        ) + seq!['\n'],
{
    lemma_literals();
    assert(" "@ =~= seq![' ']);
    plain_words_are_read("tdI"@, words, 1);
    let t = tokens("tdI"@, words, 1);
    assert forall|k: int| 0 <= k < t.len() implies (#[trigger] t[k]).word != "-p"@ by {
        assert(t[k].word == words[k + 1]);
        assert("-p"@[0] == '-');
    }
    lemma_no_values(t, "-t"@);
    lemma_no_values(t, "-d"@);
    lemma_all_message(t);
    assert(message_words(t) =~= words.skip(1));
    assert(display_message_text(words) =~= "display-message"@ + seq![' '] + in_quotes(
        joined(words.skip(1), seq![' ']),
    ) + seq!['\n']);
}

proof fn lemma_no_values(t: Seq<TokenView>, flag: Seq<char>)
    requires
        forall|k: int| 0 <= k < t.len() ==> (#[trigger] t[k]).value is None,
    ensures
        last_value(t, flag) is None,
    decreases t.len(),
{
    if t.len() > 0 {
        assert(t[t.len() - 1].value is None);
        lemma_no_values(t.drop_last(), flag);
    }
}

proof fn lemma_all_message(t: Seq<TokenView>)
    requires
        forall|k: int|
            0 <= k < t.len() ==> (#[trigger] t[k]).value is None && !(t[k].word.len() > 0 && t[k].word[0]
                == '-'),
    ensures
        message_words(t) == Seq::new(t.len(), |k: int| t[k].word),
    decreases t.len(),
{
    lemma_literals();
    if t.len() > 0 {
        let f = t.drop_last();
        assert(t[t.len() - 1].value is None);
        lemma_all_message(f);
        assert("-p"@[0] == '-');
    }
    assert(message_words(t) =~= Seq::new(t.len(), |k: int| t[k].word));
}

/// The text that is pasted is the last word that is neither a target nor its flag.
pub proof fn last_text_is_pasted(t: Seq<TokenView>, more: TokenView)
    ensures
        last_argument(t.push(more)) == (if more.value is None && more.word != seq!['-', 't'] {
            more.word
        } else {
            last_argument(t)
        }),
{
    lemma_literals();
    assert("-t"@ =~= seq!['-', 't']);
    assert(t.push(more).drop_last() =~= t);
}

} // verus!
