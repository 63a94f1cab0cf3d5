//! Commands whose words are read into options before a line is sent for them.

use vstd::prelude::*;
use crate::cli::global::{
    command_args, command_words, detach_has_its_words, file_base, names_detach, port_file_base,
};
use crate::cli::line::{quote_word, word_on_line};
use crate::cli::words::{
    contains_flag, dashed, flag_of, has_flag, in_quotes, is_dashed, is_flag_of, last_of, last_value,
    last_word, leading_flags, opt_text, plain_words, plain_words_of, push_quoted, push_word, rest_from,
    split_flags, token_views, tokenize, tokens, trim_quotes, unquoted, value_of, words_from, Token,
    TokenView,
};
use crate::text::{
    contains, decimal, ends_with, has_char, has_prefix, has_suffix, join, joined, number, parse_number,
    push_number, same, skip, starts_with, texts,
};

verus! {

/// A flag with its value on a line, if there is one.
pub open spec fn opt_piece(flag: Seq<char>, v: Option<Seq<char>>) -> Seq<char> {
    match v {
        Some(s) => flag + seq![' '] + s,
        None => Seq::empty(),
    }
}

/// A flag with its value between quotes on a line, if there is one.
pub open spec fn opt_quoted_piece(flag: Seq<char>, v: Option<Seq<char>>) -> Seq<char> {
    match v {
        Some(s) => flag + seq![' '] + in_quotes(s),
        None => Seq::empty(),
    }
}

/// A text on a line under a condition.
pub open spec fn only_if(c: bool, s: Seq<char>) -> Seq<char> {
    if c {
        s
    } else {
        Seq::empty()
    }
}

fn push_opt(line: &mut String, flag: &str, v: &Option<String>)
    ensures
        final(line)@ == old(line)@ + opt_piece(flag@, opt_text(*v)),
{
    if let Some(s) = v {
        line.append(flag);
        push_word(line, s.as_str());
    }
    assert(line@ =~= old(line)@ + opt_piece(flag@, opt_text(*v)));
}

fn push_opt_quoted(line: &mut String, flag: &str, v: &Option<String>)
    ensures
        final(line)@ == old(line)@ + opt_quoted_piece(flag@, opt_text(*v)),
{
    if let Some(s) = v {
        line.append(flag);
        push_quoted(line, s.as_str());
    }
    assert(line@ =~= old(line)@ + opt_quoted_piece(flag@, opt_text(*v)));
}

fn push_when(line: &mut String, c: bool, s: &str)
    ensures
        final(line)@ == old(line)@ + only_if(c, s@),
{
    if c {
        line.append(s);
    }
    assert(line@ =~= old(line)@ + only_if(c, s@));
}

/// The format in a token: the flag's value, or what is glued to the flag.
pub open spec fn format_in(t: TokenView) -> Option<Seq<char>> {
    if t.word == "-F"@ && t.value is Some {
        t.value
    } else if has_prefix(t.word, "-F"@) && t.word.len() > 2 && t.value is None {
        Some(t.word.skip(2))
    } else {
        None
    }
}

/// The last format among the tokens.
pub open spec fn last_format(t: Seq<TokenView>) -> Option<Seq<char>>
    decreases t.len(),
{
    if t.len() == 0 {
        None
    } else if format_in(t.last()) is Some {
        format_in(t.last())
    } else {
        last_format(t.drop_last())
    }
}

pub(crate) fn format_of(t: &Vec<Token>) -> (r: Option<String>)
    ensures
        opt_text(r) == last_format(token_views(t@)),
{
    let ghost v = token_views(t@);
    let mut i: usize = t.len();
    assert(v.take(i as int) =~= v);
    while i > 0
        invariant
            i <= t.len(),
            v == token_views(t@),
            last_format(v.take(i as int)) == last_format(v),
        decreases i,
    {
        assert(v.take(i as int).drop_last() =~= v.take(i - 1));
        i -= 1;
        assert(v.take(i + 1).last() == t@[i as int]@);
        let w = t[i].word.as_str();
        match &t[i].value {
            Some(s) => {
                if same(w, "-F") {
                    return Some(s.clone());
                }
            },
            None => {
                if starts_with(w, "-F") && w.unicode_len() > 2 {
                    return Some(skip(w, 2));
                }
            },
        }
    }
    None
}

/// An optional text without the double quotes at its ends.
pub open spec fn opt_bare(v: Option<Seq<char>>) -> Option<Seq<char>> {
    match v {
        Some(s) => Some(unquoted(s)),
        None => None,
    }
}

fn bare_opt(v: Option<String>) -> (r: Option<String>)
    ensures
        opt_text(r) == opt_bare(opt_text(v)),
{
    match v {
        Some(s) => Some(trim_quotes(s.as_str())),
        None => None,
    }
}

/// The arguments proper on a line, between quotes, if there are any.
pub open spec fn rest_piece(rest: Seq<Seq<char>>) -> Seq<char> {
    let text = joined(rest, " "@);
    only_if(text.len() > 0, seq![' '] + in_quotes(text))
}

fn push_rest(line: &mut String, words: &Vec<String>, from: usize)
    requires
        from <= words.len(),
    ensures
        final(line)@ == old(line)@ + rest_piece(texts(words@).skip(from as int)),
{
    let rest = words_from(words, from);
    let text = join(&rest, " ");
    if !text.as_str().is_empty() {
        push_quoted(line, text.as_str());
    }
    assert(line@ =~= old(line)@ + rest_piece(texts(words@).skip(from as int)));
}

/// The line for a new window.
pub open spec fn new_window_text(words: Seq<Seq<char>>) -> Seq<char> {
    let t = leading_flags("nFcteS"@, words, 1);
    "new-window"@ + only_if(has_flag(t, "-d"@), " -d"@) + only_if(has_flag(t, "-P"@), " -P"@)
        + opt_quoted_piece(" -F"@, opt_bare(last_format(t))) + opt_quoted_piece(
        " -n"@,
        opt_bare(last_value(t, "-n"@)),
    ) + opt_quoted_piece(" -c"@, opt_bare(last_value(t, "-c"@))) + rest_piece(
        words.skip(rest_from("nFcteS"@, words, 1)),
    ) + seq!['\n']
}

/// Whether the answer to a new window is printed.
pub open spec fn new_window_prints(words: Seq<Seq<char>>) -> bool {
    has_flag(leading_flags("nFcteS"@, words, 1), "-P"@)
}

/// The line for a new window, and whether the answer is waited for and printed.
pub fn new_window(words: &Vec<String>) -> (r: (String, bool))
    ensures
        r.0@ == new_window_text(texts(words@)),
        r.1 == new_window_prints(texts(words@)),
{
    let (t, rest) = split_flags("nFcteS", words, 1);
    let mut line: String = "new-window".to_owned();
    let print: bool = contains_flag(&t, "-P");
    push_when(&mut line, contains_flag(&t, "-d"), " -d");
    push_when(&mut line, print, " -P");
    push_opt_quoted(&mut line, " -F", &bare_opt(format_of(&t)));
    push_opt_quoted(&mut line, " -n", &bare_opt(value_of(&t, "-n")));
    push_opt_quoted(&mut line, " -c", &bare_opt(value_of(&t, "-c")));
    push_rest(&mut line, words, rest);
    line.push('\n');
    assert(line@ =~= new_window_text(texts(words@)));
    (line, print)
}

/// The last of two flags that exclude each other is the first of them.
pub open spec fn last_is(t: Seq<TokenView>, yes: Seq<char>, no: Seq<char>) -> bool
    decreases t.len(),
{
    if t.len() == 0 {
        false
    } else if t.last().word == yes {
        true
    } else if t.last().word == no {
        false
    } else {
        last_is(t.drop_last(), yes, no)
    }
}

fn last_flag_is(t: &Vec<Token>, yes: &str, no: &str) -> (r: bool)
    ensures
        r == last_is(token_views(t@), yes@, no@),
{
    let ghost v = token_views(t@);
    let mut i: usize = t.len();
    assert(v.take(i as int) =~= v);
    while i > 0
        invariant
            i <= t.len(),
            v == token_views(t@),
            last_is(v.take(i as int), yes@, no@) == last_is(v, yes@, no@),
        decreases i,
    {
        assert(v.take(i as int).drop_last() =~= v.take(i - 1));
        i -= 1;
        assert(v.take(i + 1).last() == t@[i as int]@);
        if same(t[i].word.as_str(), yes) {
            return true;
        }
        if same(t[i].word.as_str(), no) {
            return false;
        }
    }
    false
}

/// The size that a split is asked for, the last that is given: a share, or a
/// number of cells unless it ends with a percent sign.
pub open spec fn size_piece(t: Seq<TokenView>) -> Seq<char>
    decreases t.len(),
{
    if t.len() == 0 {
        Seq::empty()
    } else if (t.last().word == "-p"@ || t.last().word == "-l"@) && t.last().value is Some {
        let v = t.last().value->0;
        if t.last().word == "-l"@ && !has_suffix(v, "%"@) {
            " -l"@ + seq![' '] + v
        } else {
            " -p"@ + seq![' '] + v
        }
    } else {
        size_piece(t.drop_last())
    }
}

fn push_size(line: &mut String, t: &Vec<Token>)
    ensures
        final(line)@ == old(line)@ + size_piece(token_views(t@)),
{
    let ghost v = token_views(t@);
    let ghost start = line@;
    let mut i: usize = t.len();
    assert(v.take(i as int) =~= v);
    while i > 0
        invariant
            i <= t.len(),
            v == token_views(t@),
            line@ == start,
            start == old(line)@,
            size_piece(v.take(i as int)) == size_piece(v),
        decreases i,
    {
        assert(v.take(i as int).drop_last() =~= v.take(i - 1));
        i -= 1;
        assert(v.take(i + 1).last() == t@[i as int]@);
        let w = t[i].word.as_str();
        let is_l: bool = same(w, "-l");
        if same(w, "-p") || is_l {
            if let Some(s) = &t[i].value {
                if is_l && !ends_with(s.as_str(), "%") {
                    line.append(" -l");
                } else {
                    line.append(" -p");
                }
                push_word(line, s.as_str());
                assert(line@ =~= start + size_piece(v));
                return;
            }
        }
    }
    assert(line@ =~= old(line)@ + size_piece(v));
}

/// The line for a split.
pub open spec fn split_window_text(words: Seq<Seq<char>>) -> Seq<char> {
    let t = leading_flags("Fcplte"@, words, 1);
    "split-window "@ + (if last_is(t, "-h"@, "-v"@) {
        "-h"@
    } else {
        "-v"@
    }) + only_if(has_flag(t, "-d"@), " -d"@) + only_if(has_flag(t, "-P"@), " -P"@) + opt_quoted_piece(
        " -F"@,
        opt_bare(last_format(t)),
    ) + opt_quoted_piece(" -c"@, opt_bare(last_value(t, "-c"@))) + size_piece(t) + rest_piece(
        words.skip(rest_from("Fcplte"@, words, 1)),
    ) + seq!['\n']
}

/// Whether the answer to a split is printed.
pub open spec fn split_window_prints(words: Seq<Seq<char>>) -> bool {
    has_flag(leading_flags("Fcplte"@, words, 1), "-P"@)
}

/// The line for a split, and whether its answer is printed. An answer that is not
/// printed and not empty is an error.
pub fn split_window(words: &Vec<String>) -> (r: (String, bool))
    ensures
        r.0@ == split_window_text(texts(words@)),
        r.1 == split_window_prints(texts(words@)),
{
    let (t, rest) = split_flags("Fcplte", words, 1);
    let mut line: String = "split-window ".to_owned();
    if last_flag_is(&t, "-h", "-v") {
        line.append("-h");
    } else {
        line.append("-v");
    }
    let print: bool = contains_flag(&t, "-P");
    push_when(&mut line, contains_flag(&t, "-d"), " -d");
    push_when(&mut line, print, " -P");
    push_opt_quoted(&mut line, " -F", &bare_opt(format_of(&t)));
    push_opt_quoted(&mut line, " -c", &bare_opt(value_of(&t, "-c")));
    push_size(&mut line, &t);
    push_rest(&mut line, words, rest);
    line.push('\n');
    assert(line@ =~= split_window_text(texts(words@)));
    (line, print)
}

/// What a token adds to the keys that are sent.
pub open spec fn key_in(t: TokenView) -> Option<Seq<char>> {
    if t.value is Some || t.word == "-l"@ || t.word == "-X"@ || is_flag_of(t.word, "tN"@) {
        None
    } else if t.word == "-R"@ {
        Some("__RESET__"@)
    } else {
        Some(t.word)
    }
}

/// A key on a line: between quotes where a blank, a tabulator or a quote is part
/// of it.
pub open spec fn key_piece(k: Seq<char>) -> Seq<char> {
    if k.contains(' ') || k.contains('\t') || k.contains('"') {
        seq![' '] + in_quotes(k)
    } else {
        seq![' '] + k
    }
}

/// The keys on a line.
pub open spec fn key_pieces(t: Seq<TokenView>) -> Seq<char>
    decreases t.len(),
{
    if t.len() == 0 {
        Seq::empty()
    } else {
        key_pieces(t.drop_last()) + (match key_in(t.last()) {
            Some(k) => key_piece(k),
            None => Seq::empty(),
        })
    }
}

/// The line that sends keys.
pub open spec fn send_keys_text(words: Seq<Seq<char>>) -> Seq<char> {
    let t = tokens("tN"@, words, 1);
    "send-keys"@ + only_if(has_flag(t, "-l"@), " -l"@) + only_if(has_flag(t, "-X"@), " -X"@) + key_pieces(
        t,
    ) + seq!['\n']
}

fn push_key(line: &mut String, k: &str)
    ensures
        final(line)@ == old(line)@ + key_piece(k@),
{
    if has_char(k, ' ') || has_char(k, '\t') || has_char(k, '"') {
        push_quoted(line, k);
    } else {
        push_word(line, k);
    }
    assert(line@ =~= old(line)@ + key_piece(k@));
}

/// The line that sends keys.
pub fn send_keys(words: &Vec<String>) -> (r: String)
    ensures
        r@ == send_keys_text(texts(words@)),
{
    let t = tokenize("tN", words, 1);
    let ghost v = token_views(t@);
    let mut line: String = "send-keys".to_owned();
    push_when(&mut line, contains_flag(&t, "-l"), " -l");
    push_when(&mut line, contains_flag(&t, "-X"), " -X");
    let ghost head = line@;
    let mut i: usize = 0;
    assert(line@ =~= head + key_pieces(v.take(0)));
    while i < t.len()
        invariant
            i <= t.len(),
            v == token_views(t@),
            line@ == head + key_pieces(v.take(i as int)),
        decreases t.len() - i,
    {
        let ghost before = line@;
        let w = t[i].word.as_str();
        if t[i].value.is_none() && !same(w, "-l") && !same(w, "-X") && !flag_of(w, "tN") {
            if same(w, "-R") {
                push_key(&mut line, "__RESET__");
            } else {
                push_key(&mut line, w);
            }
        }
        proof {
            assert(v.take(i + 1).drop_last() =~= v.take(i as int));
            assert(v.take(i + 1).last() == t@[i as int]@);
            assert(line@ =~= head + key_pieces(v.take(i + 1)));
        }
        i += 1;
    }
    assert(v.take(t.len() as int) =~= v);
    line.push('\n');
    assert(line@ =~= send_keys_text(texts(words@)));
    line
}

/// The last word that is neither a target nor its flag.
pub open spec fn last_argument(t: Seq<TokenView>) -> Seq<char>
    decreases t.len(),
{
    if t.len() == 0 {
        Seq::empty()
    } else if t.last().value is None && t.last().word != "-t"@ {
        t.last().word
    } else {
        last_argument(t.drop_last())
    }
}

/// The line that pastes an encoded text; none where there is no text.
pub fn send_paste(words: &Vec<String>) -> (r: Option<String>)
    ensures
        opt_text(r) == ({
            let payload = last_argument(tokens("t"@, texts(words@), 1));
            if payload.len() > 0 {
                Some("send-paste "@ + payload + seq!['\n'])
            } else {
                None
            }
        }),
{
    let t = tokenize("t", words, 1);
    let ghost v = token_views(t@);
    let mut i: usize = t.len();
    assert(v.take(i as int) =~= v);
    while i > 0
        invariant
            i <= t.len(),
            v == token_views(t@),
            v == tokens("t"@, texts(words@), 1),
            last_argument(v.take(i as int)) == last_argument(v),
        decreases i,
    {
        assert(v.take(i as int).drop_last() =~= v.take(i - 1));
        i -= 1;
        assert(v.take(i + 1).last() == t@[i as int]@);
        if t[i].value.is_none() && !same(t[i].word.as_str(), "-t") {
            let payload = t[i].word.as_str();
            if payload.is_empty() {
                return None;
            }
            let mut line: String = "send-paste ".to_owned();
            line.append(payload);
            line.push('\n');
            return Some(line);
        }
    }
    None
}

/// What is asked of detaching clients.
pub struct DetachArgs {
    pub all: bool,
    /// End the client's parent too.
    pub kill_parent: bool,
    pub target: Option<String>,
    pub session: Option<String>,
    pub command: Option<String>,
}

/// Reads what is asked of detaching clients.
pub fn parse_detach(words: &Vec<String>) -> (r: DetachArgs)
    ensures
        ({
            let t = tokens("tsE"@, texts(words@), 1);
            &&& r.all == has_flag(t, "-a"@)
            &&& r.kill_parent == has_flag(t, "-P"@)
            &&& opt_text(r.target) == last_value(t, "-t"@)
            &&& opt_text(r.session) == last_value(t, "-s"@)
            &&& opt_text(r.command) == last_value(t, "-E"@)
        }),
{
    let t = tokenize("tsE", words, 1);
    DetachArgs {
        all: contains_flag(&t, "-a"),
        kill_parent: contains_flag(&t, "-P"),
        target: value_of(&t, "-t"),
        session: value_of(&t, "-s"),
        command: value_of(&t, "-E"),
    }
}

/// The session that a command goes to, by its files' name: the one that it names,
/// in the name space; else the one that the environment has; else the default.
pub open spec fn routed(
    socket: Option<Seq<char>>,
    named: Option<Seq<char>>,
    environment: Option<Seq<char>>,
) -> Seq<char> {
    match named {
        Some(s) => file_base(socket, s),
        None => match environment {
            Some(e) => e,
            None => file_base(socket, "default"@),
        },
    }
}

/// The session that a command goes to.
pub fn session_for_routing(
    socket: &Option<String>,
    named: &Option<String>,
    environment: &Option<String>,
) -> (r: String)
    ensures
        r@ == routed(opt_text(*socket), opt_text(*named), opt_text(*environment)),
{
    match named {
        Some(s) => port_file_base(socket, s.as_str()),
        None => match environment {
            Some(e) => e.clone(),
            None => port_file_base(socket, "default"),
        },
    }
}

/// The line that detaches clients. All are detached where neither a client nor a
/// command is named.
pub open spec fn detach_text(
    all: bool,
    kill_parent: bool,
    target: Option<Seq<char>>,
    command: Option<Seq<char>>,
) -> Seq<char> {
    "detach-client"@ + only_if(all || (target is None && command is None), " -a"@) + only_if(
        kill_parent,
        " -P"@,
    ) + opt_word_piece(" -t"@, target) + opt_word_piece(" -E"@, command) + seq!['\n']
}

/// A flag with its value as a word on a line, if there is one.
pub open spec fn opt_word_piece(flag: Seq<char>, v: Option<Seq<char>>) -> Seq<char> {
    match v {
        Some(s) => flag + seq![' '] + word_on_line(s),
        None => Seq::empty(),
    }
}

fn quoted(v: &Option<String>) -> (r: Option<String>)
    ensures
        opt_text(r) == (match opt_text(*v) {
            Some(s) => Some(word_on_line(s)),
            None => None,
        }),
{
    match v {
        Some(s) => Some(quote_word(s.as_str())),
        None => None,
    }
}

/// The line that detaches clients.
pub fn detach_line(d: &DetachArgs) -> (r: String)
    ensures
        r@ == detach_text(d.all, d.kill_parent, opt_text(d.target), opt_text(d.command)),
{
    let target = quoted(&d.target);
    let command = quoted(&d.command);
    let mut line: String = "detach-client".to_owned();
    push_when(&mut line, d.all || (d.target.is_none() && d.command.is_none()), " -a");
    push_when(&mut line, d.kill_parent, " -P");
    push_opt(&mut line, " -t", &target);
    push_opt(&mut line, " -E", &command);
    line.push('\n');
    line
}

/// The line that a command line sends to detach clients.
pub open spec fn detach_request(args: Seq<Seq<char>>) -> Seq<char> {
    let t = tokens("tsE"@, command_words(args, 1), 1);
    detach_text(has_flag(t, "-a"@), has_flag(t, "-P"@), last_value(t, "-t"@), last_value(t, "-E"@))
}

/// Reads what a command line asks of detaching clients, with the line that is sent for it.
pub fn detach_client(args: &Vec<String>) -> (r: (DetachArgs, String))
    ensures
        r.1@ == detach_request(texts(args@)),
        opt_text(r.0.session) == last_value(tokens("tsE"@, command_words(texts(args@), 1), 1), "-s"@),
{
    let words = command_args(args);
    let d = parse_detach(&words);
    let line = detach_line(&d);
    (d, line)
}

/// Where a client is named, and all are not asked for, the line names that client and asks for no
/// other.
pub proof fn named_client_alone_is_detached(args: Seq<Seq<char>>, target: Seq<char>)
    requires
        ({
            let t = tokens("tsE"@, command_words(args, 1), 1);
            &&& last_value(t, "-t"@) == Some(target)
            &&& !has_flag(t, "-a"@)
        }),
    ensures
        ({
            let t = tokens("tsE"@, command_words(args, 1), 1);
            detach_request(args) == "detach-client"@ + only_if(has_flag(t, "-P"@), " -P"@) + " -t "@
                + word_on_line(target) + opt_word_piece(" -E"@, last_value(t, "-E"@)) + "\n"@
        }),
{
    let t = tokens("tsE"@, command_words(args, 1), 1);
    reveal_strlit(" -t");
    reveal_strlit(" -t ");
    reveal_strlit("\n");
    assert(detach_request(args) =~= "detach-client"@ + only_if(has_flag(t, "-P"@), " -P"@) + " -t "@
        + word_on_line(target) + opt_word_piece(" -E"@, last_value(t, "-E"@)) + "\n"@);
}

/// `detach-client -t` with a client, behind whatever the program is called, detaches that client
/// and no other.
pub proof fn detach_with_target(args: Seq<Seq<char>>)
    requires
        args.len() == 4,
        names_detach(args[1]),
        args[2] == "-t"@,
    ensures
        detach_request(args) == "detach-client -t "@ + word_on_line(args[3]) + "\n"@,
{
    reveal_strlit("tsE");
    reveal_strlit("-t");
    reveal_strlit("-a");
    reveal_strlit("-P");
    reveal_strlit("-E");
    detach_has_its_words(args, 1);
    let w = command_words(args, 1);
    assert(w =~= seq![args[1], args[2], args[3]]);
    assert("tsE"@[0] == 't');
    assert(is_flag_of(w[1], "tsE"@));
    let one = TokenView { word: args[2], value: Some(args[3]) };
    let t = tokens("tsE"@, w, 1);
    assert(t =~= seq![one]) by {
        assert(tokens("tsE"@, w, 3) =~= Seq::empty());
    }
    assert(t.drop_last() =~= Seq::empty());
    assert(t.last() == one);
    assert("-t"@[1] != "-a"@[1] && "-t"@[1] != "-P"@[1] && "-t"@[1] != "-E"@[1]);
    assert(last_value(t.drop_last(), "-E"@) is None);
    named_client_alone_is_detached(args, args[3]);
    assert(detach_request(args) =~= "detach-client -t "@ + word_on_line(args[3]) + "\n"@) by {
        reveal_strlit("detach-client");
        reveal_strlit(" -t ");
        reveal_strlit("detach-client -t ");
    }
}

/// The session that is to be ended: the last that is named.
pub fn kill_session_target(words: &Vec<String>) -> (r: Option<String>)
    ensures
        opt_text(r) == last_value(tokens("t"@, texts(words@), 1), "-t"@),
{
    let t = tokenize("t", words, 1);
    value_of(&t, "-t")
}

/// A session's name without the sign that asks for an exact match.
pub open spec fn exact_name(s: Seq<char>) -> Seq<char> {
    if has_prefix(s, "="@) {
        s.skip(1)
    } else {
        s
    }
}

fn exact(s: &str) -> (r: String)
    ensures
        r@ == exact_name(s@),
{
    proof {
        reveal_strlit("=");
    }
    if starts_with(s, "=") {
        skip(s, 1)
    } else {
        s.to_owned()
    }
}

/// The session that is asked for, from position `i` on: the last target before the
/// first plain word, or that word.
pub open spec fn asked_session(words: Seq<Seq<char>>, i: int, so_far: Seq<char>) -> Seq<char>
    decreases words.len() + 1 - i,
{
    if i < 0 || i >= words.len() {
        so_far
    } else if words[i] == "-t"@ {
        asked_session(
            words,
            i + 2,
            if i + 1 < words.len() {
                exact_name(words[i + 1])
            } else {
                so_far
            },
        )
    } else if !dashed(words[i]) {
        exact_name(words[i])
    } else {
        asked_session(words, i + 1, so_far)
    }
}

/// The files' name of the session that is asked for, where the environment has
/// none.
pub fn has_session_target(words: &Vec<String>, socket: &Option<String>) -> (r: String)
    ensures
        r@ == file_base(opt_text(*socket), asked_session(texts(words@), 1, "default"@)),
{
    let ghost w = texts(words@);
    let mut t: String = "default".to_owned();
    let mut i: usize = 1;
    while i < words.len()
        invariant_except_break
            1 <= i,
            w == texts(words@),
            asked_session(w, i as int, t@) == asked_session(w, 1, "default"@),
        ensures
            t@ == asked_session(w, 1, "default"@),
        decreases words.len() - i,
    {
        assert(words@[i as int]@ == w[i as int]);
        if same(words[i].as_str(), "-t") {
            if i + 1 < words.len() {
                t = exact(words[i + 1].as_str());
                i += 2;
            } else {
                assert(asked_session(w, i + 2, t@) == asked_session(w, i + 1, t@));
                i += 1;
            }
        } else if !is_dashed(words[i].as_str()) {
            t = exact(words[i].as_str());
            break;
        } else {
            i += 1;
        }
    }
    port_file_base(socket, t.as_str())
}

/// The first word behind the command's name that does not begin with a dash.
pub open spec fn first_plain(words: Seq<Seq<char>>, i: int) -> Option<Seq<char>>
    decreases words.len() - i,
{
    if i < 0 || i >= words.len() {
        None
    } else if !dashed(words[i]) {
        Some(words[i])
    } else {
        first_plain(words, i + 1)
    }
}

/// The new name of a session, if there is one.
pub fn rename_session_name(words: &Vec<String>) -> (r: Option<String>)
    ensures
        opt_text(r) == first_plain(texts(words@), 1),
{
    let ghost w = texts(words@);
    let mut i: usize = 1;
    while i < words.len()
        invariant
            1 <= i,
            w == texts(words@),
            first_plain(w, i as int) == first_plain(w, 1),
        decreases words.len() - i,
    {
        assert(words@[i as int]@ == w[i as int]);
        if !is_dashed(words[i].as_str()) {
            return Some(words[i].clone());
        }
        i += 1;
    }
    None
}

/// The new name of a window: the word behind the command's name, unless it begins
/// with a dash.
pub fn rename_window_name(words: &Vec<String>) -> (r: Option<String>)
    ensures
        opt_text(r) == ({
            let w = texts(words@);
            if w.len() > 1 && !dashed(w[1]) {
                Some(w[1])
            } else {
                None
            }
        }),
{
    if words.len() > 1 && !is_dashed(words[1].as_str()) {
        Some(words[1].clone())
    } else {
        None
    }
}

/// What is asked of setting a paste buffer, and the line for it.
pub struct SetBuffer {
    pub data: Option<String>,
    /// Copy the text to the system's clipboard too.
    pub clipboard: bool,
    pub line: String,
}

/// The line that sets a paste buffer.
pub open spec fn set_buffer_text(name: Option<Seq<char>>, data: Option<Seq<char>>) -> Seq<char> {
    "set-buffer"@ + opt_piece(" -b"@, name) + opt_piece(""@, data) + seq!['\n']
}

/// Reads what is asked of setting a paste buffer.
pub fn set_buffer(words: &Vec<String>) -> (r: SetBuffer)
    ensures
        ({
            let t = tokens("b"@, texts(words@), 1);
            let data = last_word(plain_words(t));
            &&& opt_text(r.data) == data
            &&& r.clipboard == has_flag(t, "-w"@)
            &&& r.line@ == set_buffer_text(last_value(t, "-b"@), data)
        }),
{
    let t = tokenize("b", words, 1);
    let plain = plain_words_of(&t);
    let data = last_of(&plain);
    let mut line: String = "set-buffer".to_owned();
    push_opt(&mut line, " -b", &value_of(&t, "-b"));
    push_opt(&mut line, "", &data);
    line.push('\n');
    SetBuffer { data, clipboard: contains_flag(&t, "-w"), line }
}

/// The line that lists the paste buffers.
pub fn list_buffers(words: &Vec<String>) -> (r: String)
    ensures
        r@ == "list-buffers"@ + opt_piece(" -F"@, last_format(tokens("Ft"@, texts(words@), 1)))
            + seq!['\n'],
{
    let t = tokenize("Ft", words, 1);
    let mut line: String = "list-buffers".to_owned();
    push_opt(&mut line, " -F", &format_of(&t));
    line.push('\n');
    line
}

/// The line that shows or deletes a paste buffer.
pub fn buffer_line(command: &str, words: &Vec<String>) -> (r: String)
    ensures
        r@ == command@ + opt_piece(" -b"@, last_value(tokens("b"@, texts(words@), 1), "-b"@))
            + seq!['\n'],
{
    let t = tokenize("b", words, 1);
    let mut line: String = command.to_owned();
    push_opt(&mut line, " -b", &value_of(&t, "-b"));
    line.push('\n');
    line
}

/// The words of a message among the tokens.
pub open spec fn message_words(t: Seq<TokenView>) -> Seq<Seq<char>>
    decreases t.len(),
{
    if t.len() == 0 {
        Seq::empty()
    } else if t.last().value is Some || t.last().word == "-p"@ || is_flag_of(t.last().word, "tdI"@) {
        message_words(t.drop_last())
    } else {
        message_words(t.drop_last()).push(t.last().word)
    }
}

fn message_words_of(t: &Vec<Token>) -> (r: Vec<String>)
    ensures
        texts(r@) == message_words(token_views(t@)),
{
    let ghost v = token_views(t@);
    let mut r: Vec<String> = Vec::new();
    let mut i: usize = 0;
    assert(texts(r@) =~= message_words(v.take(0)));
    while i < t.len()
        invariant
            i <= t.len(),
            v == token_views(t@),
            texts(r@) == message_words(v.take(i as int)),
        decreases t.len() - i,
    {
        assert(v.take(i + 1).drop_last() =~= v.take(i as int));
        assert(v.take(i + 1).last() == t@[i as int]@);
        let ghost before = texts(r@);
        let w = t[i].word.as_str();
        if t[i].value.is_none() && !same(w, "-p") && !flag_of(w, "tdI") {
            r.push(t[i].word.clone());
            assert(texts(r@) =~= before.push(t@[i as int].word@));
        }
        i += 1;
    }
    assert(v.take(t.len() as int) =~= v);
    r
}

/// How long a message is shown, in milliseconds, where a number is given last.
pub open spec fn duration(t: Seq<TokenView>) -> Option<nat> {
    match last_value(t, "-d"@) {
        Some(v) => number(v, u64::MAX as nat),
        None => None,
    }
}

/// The line that displays a message.
pub open spec fn display_message_text(words: Seq<Seq<char>>) -> Seq<char> {
    let t = tokens("tdI"@, words, 1);
    "display-message"@ + opt_piece(" -t"@, last_value(t, "-t"@)) + only_if(
        has_flag(t, "-p"@),
        " -p"@,
    ) + (match duration(t) {
        Some(d) => " -d "@ + decimal(d),
        None => Seq::empty(),
    }) + seq![' '] + in_quotes(joined(message_words(t), " "@)) + seq!['\n']
}

/// Whether a message is printed.
pub open spec fn display_message_prints(words: Seq<Seq<char>>) -> bool {
    has_flag(tokens("tdI"@, words, 1), "-p"@)
}

/// The line that displays a message, and whether the answer is waited for and
/// printed.
pub fn display_message(words: &Vec<String>) -> (r: (String, bool))
    ensures
        r.0@ == display_message_text(texts(words@)),
        r.1 == display_message_prints(texts(words@)),
{
    let t = tokenize("tdI", words, 1);
    let print: bool = contains_flag(&t, "-p");
    let mut line: String = "display-message".to_owned();
    push_opt(&mut line, " -t", &value_of(&t, "-t"));
    push_when(&mut line, print, " -p");
    let given: Option<u64> = match value_of(&t, "-d") {
        Some(v) => parse_number(v.as_str(), u64::MAX),
        None => None,
    };
    let ghost before = line@;
    if let Some(d) = given {
        line.append(" -d ");
        push_number(&mut line, d);
    }
    proof {
        let v = token_views(t@);
        assert(line@ =~= before + (match duration(v) {
            Some(d) => " -d "@ + decimal(d),
            None => Seq::empty(),
        }));
    }
    let parts = message_words_of(&t);
    let message = join(&parts, " ");
    push_quoted(&mut line, message.as_str());
    line.push('\n');
    assert(line@ =~= display_message_text(texts(words@)));
    (line, print)
}

} // verus!
