//! Commands that scripts use: shell commands and conditions, channels, layouts,
//! buffers in files, and panes that move between sessions.

use vstd::prelude::*;
use crate::cli::commands::{only_if, opt_piece};
use crate::cli::line::{quote_word, word_on_line};
use crate::cli::words::{
    contains_flag, has_flag, in_quotes, last_of, last_value, last_word, opt_text, plain_words,
    plain_words_of, push_word, token_views, tokenize, tokens, value_of, TokenView,
};
use crate::text::{
    after_char, before_char, has_char, has_prefix, join, joined, replace, replaced, same, skip, split_once,
    starts_with, texts, trim, trimmed,
};

verus! {

/// The words of a shell command among the words from position `i` on.
pub open spec fn shell_words(words: Seq<Seq<char>>, i: int) -> Seq<Seq<char>>
    decreases words.len() - i,
{
    if i < 0 || i >= words.len() {
        Seq::empty()
    } else if words[i] == "-b"@ {
        shell_words(words, i + 1)
    } else {
        seq![words[i]] + shell_words(words, i + 1)
    }
}

/// The shell command that is to be run, and whether it is not waited for. None
/// where there is no command but white space.
pub fn run_shell(words: &Vec<String>) -> (r: Option<(String, bool)>)
    ensures
        ({
            let w = texts(words@);
            let command = joined(shell_words(w, 1), " "@);
            match r {
                Some((c, background)) => c@ == command && trimmed(command).len() > 0 && background
                    == w.skip(1).contains("-b"@),
                None => trimmed(command).len() == 0,
            }
        }),
{
    let ghost w = texts(words@);
    let mut kept: Vec<String> = Vec::new();
    let mut background: bool = false;
    let mut i: usize = 1;
    assert(texts(kept@) + shell_words(w, 1) =~= shell_words(w, 1));
    while i < words.len()
        invariant
            1 <= i,
            w == texts(words@),
            texts(kept@) + shell_words(w, i as int) == shell_words(w, 1),
            background == exists|j: int| 1 <= j < i && j < w.len() && #[trigger] w[j] == "-b"@,
        decreases words.len() - i,
    {
        let ghost before = texts(kept@);
        let ghost at = i as int;
        assert(words@[at]@ == w[at]);
        if same(words[i].as_str(), "-b") {
            background = true;
        } else {
            kept.push(words[i].clone());
            assert(texts(kept@) =~= before.push(w[at]));
            assert(before.push(w[at]) + shell_words(w, at + 1) =~= before + (seq![w[at]]
                + shell_words(w, at + 1)));
        }
        i += 1;
    }
    assert(texts(kept@) =~= shell_words(w, 1));
    let command = join(&kept, " ");
    let bare = trim(command.as_str());
    if bare.as_str().is_empty() {
        return None;
    }
    proof {
        if w.len() > 0 {
            let s = w.skip(1);
            if background {
                let j = choose|j: int| 1 <= j < i && j < w.len() && #[trigger] w[j] == "-b"@;
                assert(s[j - 1] == "-b"@);
            }
            if s.contains("-b"@) {
                let j = choose|j: int| 0 <= j < s.len() && s[j] == "-b"@;
                assert(w[j + 1] == "-b"@);
            }
        } else {
            assert(shell_words(w, 1) =~= Seq::<Seq<char>>::empty());
            assert(trimmed(Seq::<char>::empty()).len() == 0);
        }
    }
    Some((command, background))
}

/// What is asked of joining a pane.
pub struct JoinArgs {
    pub source: String,
    pub horizontal: bool,
}

/// Reads what is asked of joining a pane.
pub fn parse_join(words: &Vec<String>) -> (r: JoinArgs)
    ensures
        ({
            let t = tokens("s"@, texts(words@), 1);
            &&& r.source@ == (match last_value(t, "-s"@) {
                Some(s) => s,
                None => Seq::empty(),
            })
            &&& r.horizontal == has_flag(t, "-h"@)
        }),
{
    let t = tokenize("s", words, 1);
    JoinArgs {
        source: match value_of(&t, "-s") {
            Some(s) => s,
            None => String::new(),
        },
        horizontal: contains_flag(&t, "-h"),
    }
}

/// The session in a pane's address: what stands before a colon.
pub open spec fn session_part(spec_text: Seq<char>) -> Seq<char> {
    if spec_text.contains(':') {
        before_char(spec_text, ':')
    } else {
        Seq::empty()
    }
}

/// The window and pane in a pane's address: what stands between the first two
/// colons, or all of it.
pub open spec fn pane_part(spec_text: Seq<char>) -> Seq<char> {
    match after_char(spec_text, ':') {
        Some(rest) => before_char(rest, ':'),
        None => spec_text,
    }
}

fn session_of(s: &str) -> (r: String)
    ensures
        r@ == session_part(s@),
{
    if has_char(s, ':') {
        let (front, _) = split_once(s, ':');
        front
    } else {
        String::new()
    }
}

/// The window and pane in a pane's address.
pub fn pane_of(s: &str) -> (r: String)
    ensures
        r@ == pane_part(s@),
{
    let (_, back) = split_once(s, ':');
    match back {
        Some(rest) => {
            let (field, _) = split_once(rest.as_str(), ':');
            field
        },
        None => s.to_owned(),
    }
}

/// The session that an address means, where it may leave the current one out.
pub open spec fn effective_session(spec_text: Seq<char>, current: Seq<char>) -> Seq<char> {
    if session_part(spec_text).len() == 0 {
        current
    } else {
        session_part(spec_text)
    }
}

fn effective(s: &str, current: &str) -> (r: String)
    ensures
        r@ == effective_session(s@, current@),
{
    let own = session_of(s);
    if own.as_str().is_empty() {
        current.to_owned()
    } else {
        own
    }
}

/// How a pane is joined.
pub enum JoinPlan {
    /// Neither a source nor a target is given.
    Usage,
    /// Source and target are the same window.
    OwnWindow,
    /// Between two sessions.
    Across { source_session: String, target_session: String },
    /// Within a session, by this line.
    Within { line: String },
}

/// The line that joins a pane within a session.
pub open spec fn join_text(source: Seq<char>, target: Seq<char>, horizontal: bool) -> Seq<char> {
    "join-pane"@ + only_if(horizontal, " -h"@) + only_if(source.len() > 0, " -s "@ + source) + only_if(
        target.len() > 0,
        " -t "@ + target,
    ) + seq!['\n']
}

/// Whether both addresses are complete and mean one session, so that their windows
/// are compared.
pub open spec fn windows_compared(source: Seq<char>, target: Seq<char>, current: Seq<char>) -> bool {
    &&& effective_session(source, current) == effective_session(target, current)
    &&& effective_session(source, current).len() > 0
    &&& pane_part(source).len() > 0
    &&& pane_part(target).len() > 0
}

/// How a pane is joined, given the windows that source and target name, where they
/// name one.
pub fn plan_join(
    j: &JoinArgs,
    target: &str,
    current: &str,
    source_window: Option<usize>,
    target_window: Option<usize>,
) -> (r: JoinPlan)
    ensures
        ({
            let s = effective_session(j.source@, current@);
            let t = effective_session(target@, current@);
            if j.source@.len() == 0 && target@.len() == 0 {
                r is Usage
            } else if windows_compared(j.source@, target@, current@) && source_window is Some
                && source_window == target_window {
                r is OwnWindow
            } else if s.len() > 0 && t.len() > 0 && s != t {
                r matches JoinPlan::Across { source_session, target_session } && source_session@
                    == s && target_session@ == t
            } else {
                r matches JoinPlan::Within { line } && line@ == join_text(
                    j.source@,
                    target@,
                    j.horizontal,
                )
            }
        }),
{
    let source = j.source.as_str();
    if source.is_empty() && target.is_empty() {
        return JoinPlan::Usage;
    }
    let from = effective(source, current);
    let to = effective(target, current);
    let same_session: bool = same(from.as_str(), to.as_str());
    if same_session && !from.as_str().is_empty() {
        let a = pane_of(source);
        let b = pane_of(target);
        if !a.as_str().is_empty() && !b.as_str().is_empty() {
            if let (Some(x), Some(y)) = (source_window, target_window) {
                if x == y {
                    return JoinPlan::OwnWindow;
                }
            }
        }
    }
    if !from.as_str().is_empty() && !to.as_str().is_empty() && !same_session {
        return JoinPlan::Across { source_session: from, target_session: to };
    }
    let mut line: String = "join-pane".to_owned();
    if j.horizontal {
        line.append(" -h");
    }
    if !source.is_empty() {
        line.append(" -s ");
        line.append(source);
    }
    if !target.is_empty() {
        line.append(" -t ");
        line.append(target);
    }
    line.push('\n');
    assert(line@ =~= join_text(j.source@, target@, j.horizontal));
    JoinPlan::Within { line }
}

/// What is asked of sourcing a file: its path, a tilde at its front replaced by the
/// home directory, and whether a missing file is passed over in silence.
pub fn source_file(words: &Vec<String>, home: &str) -> (r: (Option<String>, bool))
    ensures
        ({
            let t = tokens(""@, texts(words@), 1);
            &&& opt_text(r.0) == (match last_word(plain_words(t)) {
                Some(p) => Some(expanded_home(p, home@)),
                None => None,
            })
            &&& r.1 == has_flag(t, "-q"@)
        }),
{
    let t = tokenize("", words, 1);
    let plain = plain_words_of(&t);
    let path: Option<String> = match last_of(&plain) {
        Some(p) => Some(expand_home(p.as_str(), home)),
        None => None,
    };
    (path, contains_flag(&t, "-q"))
}

/// A path with the tilde at its front, if there is one, replaced by the home
/// directory.
pub open spec fn expanded_home(path: Seq<char>, home: Seq<char>) -> Seq<char> {
    if path.len() > 0 && path[0] == '~' {
        home + path.skip(1)
    } else {
        path
    }
}

/// A path with the tilde at its front, if there is one, replaced by the home
/// directory.
pub fn expand_home(path: &str, home: &str) -> (r: String)
    ensures
        r@ == expanded_home(path@, home@),
{
    proof {
        reveal_strlit("~");
        assert(has_prefix(path@, "~"@) ==> path@.take(1)[0] == '~');
        assert(path@.len() > 0 && path@[0] == '~' ==> path@.take(1) =~= "~"@);
    }
    if starts_with(path, "~") {
        let mut r: String = home.to_owned();
        let rest = skip(path, 1);
        r.append(rest.as_str());
        r
    } else {
        path.to_owned()
    }
}

/// Whether a default binding is listed where no server runs: its table is the one
/// asked for, or none is, and its key is the one asked for, or none is.
pub fn default_key_listed(
    table_filter: &Option<String>,
    key_filter: &Option<String>,
    table: &str,
    key: &str,
) -> (r: bool)
    ensures
        r == ((table_filter is None || opt_text(*table_filter) == Some(table@)) && (key_filter
            is None || opt_text(*key_filter) == Some(key@))),
{
    let table_ok: bool = match table_filter {
        Some(t) => same(t.as_str(), table),
        None => true,
    };
    let key_ok: bool = match key_filter {
        Some(k) => same(k.as_str(), key),
        None => true,
    };
    table_ok && key_ok
}

/// All words on a line.
pub fn whole_line(words: &Vec<String>) -> (r: String)
    ensures
        r@ == joined(texts(words@), " "@) + seq!['\n'],
{
    let mut line = join(words, " ");
    line.push('\n');
    line
}

/// A word as it stands on a line: between quotes where a blank is part of it, or,
/// if asked, a quote.
pub open spec fn line_word(w: Seq<char>, quotes_too: bool) -> Seq<char> {
    if w.contains(' ') || (quotes_too && w.contains('"')) {
        in_quotes(w)
    } else {
        w
    }
}

/// Words as they stand on a line.
pub open spec fn line_words(words: Seq<Seq<char>>, quotes_too: bool) -> Seq<Seq<char>> {
    Seq::new(words.len(), |i: int| line_word(words[i], quotes_too))
}

/// All words on a line, those between quotes that hold a blank or, if asked, a
/// quote.
pub fn quoted_line(words: &Vec<String>, quotes_too: bool) -> (r: String)
    ensures
        r@ == joined(line_words(texts(words@), quotes_too), " "@) + seq!['\n'],
{
    let ghost w = texts(words@);
    let mut parts: Vec<String> = Vec::new();
    let mut i: usize = 0;
    while i < words.len()
        invariant
            i <= words.len(),
            w == texts(words@),
            texts(parts@) == line_words(w, quotes_too).take(i as int),
        decreases words.len() - i,
    {
        let s = words[i].as_str();
        let ghost before = texts(parts@);
        if has_char(s, ' ') || (quotes_too && has_char(s, '"')) {
            proof {
                reveal_strlit("\\\"");
                assert("\\\""@ =~= seq!['\\', '"']);
            }
            let mut q = String::new();
            q.push('"');
            let e = replace(s, '"', "\\\"");
            q.append(e.as_str());
            q.push('"');
            assert(q@ =~= in_quotes(s@));
            parts.push(q);
        } else {
            parts.push(words[i].clone());
        }
        assert(texts(parts@) =~= before.push(line_word(w[i as int], quotes_too)));
        assert(texts(parts@) =~= line_words(w, quotes_too).take(i + 1));
        i += 1;
    }
    assert(line_words(w, quotes_too).take(words.len() as int) =~= line_words(w, quotes_too));
    let mut line = join(&parts, " ");
    line.push('\n');
    line
}

/// What is asked of a condition.
pub struct IfShell {
    /// Do not wait for the condition.
    pub background: bool,
    /// The condition is a format.
    pub format: bool,
    pub condition: Option<String>,
    pub then_command: Option<String>,
    pub else_command: Option<String>,
}

/// The word at a position, if there is one.
pub open spec fn word_at(words: Seq<Seq<char>>, i: int) -> Option<Seq<char>> {
    if 0 <= i < words.len() {
        Some(words[i])
    } else {
        None
    }
}

fn nth(words: &Vec<String>, i: usize) -> (r: Option<String>)
    ensures
        opt_text(r) == word_at(texts(words@), i as int),
{
    if i < words.len() {
        Some(words[i].clone())
    } else {
        None
    }
}

/// Reads what is asked of a condition: the first three plain words are the
/// condition and the commands for either outcome.
pub fn parse_if_shell(words: &Vec<String>) -> (r: IfShell)
    ensures
        ({
            let t = tokens("t"@, texts(words@), 1);
            let p = plain_words(t);
            &&& r.background == has_flag(t, "-b"@)
            &&& r.format == has_flag(t, "-F"@)
            &&& opt_text(r.condition) == word_at(p, 0)
            &&& opt_text(r.then_command) == word_at(p, 1)
            &&& opt_text(r.else_command) == word_at(p, 2)
        }),
{
    let t = tokenize("t", words, 1);
    let p = plain_words_of(&t);
    IfShell {
        background: contains_flag(&t, "-b"),
        format: contains_flag(&t, "-F"),
        condition: nth(&p, 0),
        then_command: nth(&p, 1),
        else_command: nth(&p, 2),
    }
}

/// What a condition says by itself: a few words are true or false, anything else
/// is left to the shell.
pub fn literal_condition(condition: &str) -> (r: Option<bool>)
    ensures
        r == (if condition@ == "true"@ || condition@ == "1"@ {
            Some(true)
        } else if condition@ == "false"@ || condition@ == "0"@ {
            Some(false)
        } else {
            None
        }),
{
    if same(condition, "true") || same(condition, "1") {
        Some(true)
    } else if same(condition, "false") || same(condition, "0") {
        Some(false)
    } else {
        None
    }
}

/// A text without the line feeds at its end.
pub open spec fn without_line_feeds(s: Seq<char>) -> Seq<char>
    decreases s.len(),
{
    if s.len() > 0 && s.last() == '\n' {
        without_line_feeds(s.drop_last())
    } else {
        s
    }
}

/// Whether an expanded format is true: it is neither empty nor zero.
pub fn format_is_true(expanded: &str) -> (r: bool)
    ensures
        r == (without_line_feeds(expanded@).len() > 0 && without_line_feeds(expanded@) != "0"@),
{
    let v = crate::text::chars_of(expanded);
    let mut n: usize = v.len();
    assert(v@.take(n as int) =~= v@);
    while n > 0 && v[n - 1] == '\n'
        invariant
            n <= v.len(),
            without_line_feeds(v@.take(n as int)) == without_line_feeds(v@),
        decreases n,
    {
        assert(v@.take(n as int).drop_last() =~= v@.take(n - 1));
        n -= 1;
    }
    let rest = crate::text::range_text(&v, 0, n);
    assert(v@.subrange(0, n as int) =~= v@.take(n as int));
    !rest.as_str().is_empty() && !same(rest.as_str(), "0")
}

/// The command that an outcome chooses.
pub fn chosen_command(c: IfShell, success: bool) -> (r: Option<String>)
    ensures
        r == (if success {
            c.then_command
        } else {
            c.else_command
        }),
{
    if success {
        c.then_command
    } else {
        c.else_command
    }
}

/// The line for a channel and whether it is waited on; none where no channel is named.
pub open spec fn wait_request(words: Seq<Seq<char>>) -> Option<(Seq<char>, bool)> {
    let t = tokens(""@, words, 1);
    match last_word(plain_words(t)) {
        None => None,
        Some(ch) => Some(
            (
                "wait-for"@ + (if has_flag(t, "-S"@) {
                    " -S"@
                } else if has_flag(t, "-L"@) {
                    " -L"@
                } else if has_flag(t, "-U"@) {
                    " -U"@
                } else {
                    Seq::empty()
                }) + seq![' '] + ch + seq!['\n'],
                !(has_flag(t, "-S"@) || has_flag(t, "-L"@) || has_flag(t, "-U"@)),
            ),
        ),
    }
}

/// The line for a channel, and whether it is waited on; none where no channel is
/// named. Signalling comes before locking, and locking before unlocking.
pub fn wait_for(words: &Vec<String>) -> (r: Option<(String, bool)>)
    ensures
        (match r {
            Some((line, waits)) => Some((line@, waits)),
            None => None,
        }) == wait_request(texts(words@)),
{
    let t = tokenize("", words, 1);
    let plain = plain_words_of(&t);
    match last_of(&plain) {
        None => None,
        Some(ch) => {
            let mut line: String = "wait-for".to_owned();
            let mut waits: bool = false;
            if contains_flag(&t, "-S") {
                line.append(" -S");
            } else if contains_flag(&t, "-L") {
                line.append(" -L");
            } else if contains_flag(&t, "-U") {
                line.append(" -U");
            } else {
                waits = true;
                assert(line@ =~= "wait-for"@ + Seq::<char>::empty());
            }
            push_word(&mut line, ch.as_str());
            line.push('\n');
            Some((line, waits))
        },
    }
}

/// The line that selects a layout: the next one, the one before, or the one that is named last.
pub open spec fn select_layout_text(words: Seq<Seq<char>>) -> Seq<char> {
    let t = tokens("t"@, words, 1);
    (if has_flag(t, "-n"@) {
        "next-layout"@
    } else if has_flag(t, "-p"@) {
        "previous-layout"@
    } else {
        "select-layout"@ + opt_piece(""@, last_word(plain_words(t)))
    }) + seq!['\n']
}

/// The line that selects a layout.
pub fn select_layout(words: &Vec<String>) -> (r: String)
    ensures
        r@ == select_layout_text(texts(words@)),
{
    let t = tokenize("t", words, 1);
    let mut line: String = String::new();
    if contains_flag(&t, "-n") {
        line.append("next-layout");
        assert(line@ =~= "next-layout"@);
    } else if contains_flag(&t, "-p") {
        line.append("previous-layout");
        assert(line@ =~= "previous-layout"@);
    } else {
        line.append("select-layout");
        let plain = plain_words_of(&t);
        if let Some(l) = last_of(&plain) {
            proof {
                reveal_strlit("");
            }
            push_word(&mut line, l.as_str());
            assert(line@ =~= "select-layout"@ + opt_piece(""@, Some(l@)));
        } else {
            assert(line@ =~= "select-layout"@ + opt_piece(""@, None));
        }
    }
    line.push('\n');
    line
}

/// What is asked of a buffer in a file.
pub struct BufferFile {
    pub buffer: Option<String>,
    /// The file, or a dash for the standard streams.
    pub path: Option<String>,
    /// Copy the text to the system's clipboard too.
    pub clipboard: bool,
    /// Add to the file.
    pub append: bool,
}

/// The last word that is a dash alone or does not begin with one.
pub open spec fn last_path(t: Seq<TokenView>) -> Option<Seq<char>>
    decreases t.len(),
{
    if t.len() == 0 {
        None
    } else if t.last().value is None && (t.last().word == "-"@ || !crate::cli::words::dashed(
        t.last().word,
    )) {
        Some(t.last().word)
    } else {
        last_path(t.drop_last())
    }
}

/// Reads what is asked of loading or saving a buffer.
pub fn parse_buffer_file(words: &Vec<String>) -> (r: BufferFile)
    ensures
        ({
            let t = tokens("b"@, texts(words@), 1);
            &&& opt_text(r.buffer) == last_value(t, "-b"@)
            &&& opt_text(r.path) == last_path(t)
            &&& r.clipboard == has_flag(t, "-w"@)
            &&& r.append == has_flag(t, "-a"@)
        }),
{
    let t = tokenize("b", words, 1);
    let ghost v = token_views(t@);
    let mut path: Option<String> = None;
    let mut i: usize = t.len();
    assert(v.take(i as int) =~= v);
    while i > 0
        invariant_except_break
            path is None,
            last_path(v.take(i as int)) == last_path(v),
        invariant
            i <= t.len(),
            v == token_views(t@),
        ensures
            opt_text(path) == last_path(v),
        decreases i,
    {
        assert(v.take(i as int).drop_last() =~= v.take(i - 1));
        i -= 1;
        assert(v.take(i + 1).last() == t@[i as int]@);
        let w = t[i].word.as_str();
        if t[i].value.is_none() && (same(w, "-") || !crate::cli::words::is_dashed(w)) {
            path = Some(t[i].word.clone());
            break;
        }
    }
    BufferFile {
        buffer: value_of(&t, "-b"),
        path,
        clipboard: contains_flag(&t, "-w"),
        append: contains_flag(&t, "-a"),
    }
}

/// A text on one line: line feeds and carriage returns are written out.
pub open spec fn one_line(s: Seq<char>) -> Seq<char> {
    replaced(replaced(s, '\n', seq!['\\', 'n']), '\r', seq!['\\', 'r'])
}

/// The line that sets a buffer to the content of a file.
pub fn load_buffer_line(buffer: &Option<String>, content: &str) -> (r: String)
    ensures
        r@ == "set-buffer"@ + opt_piece(" -b"@, opt_text(*buffer)) + seq![' '] + one_line(content@)
            + seq!['\n'],
{
    let mut line: String = "set-buffer".to_owned();
    if let Some(b) = buffer {
        line.append(" -b");
        push_word(&mut line, b.as_str());
    }
    assert(line@ =~= "set-buffer"@ + opt_piece(" -b"@, opt_text(*buffer)));
    proof {
        reveal_strlit("\\n");
        reveal_strlit("\\r");
        assert("\\n"@ =~= seq!['\\', 'n']);
        assert("\\r"@ =~= seq!['\\', 'r']);
    }
    let a = replace(content, '\n', "\\n");
    let b = replace(a.as_str(), '\r', "\\r");
    push_word(&mut line, b.as_str());
    line.push('\n');
    line
}

proof fn lemma_replaced_lacks(s: Seq<char>, c: char, by: Seq<char>, d: char)
    requires
        !by.contains(d),
        c == d || !s.contains(d),
    ensures
        !replaced(s, c, by).contains(d),
    decreases s.len(),
{
    if s.len() > 0 {
        assert forall|x: char| s.drop_last().contains(x) implies s.contains(x) by {
            let k = choose|k: int| 0 <= k < s.drop_last().len() && s.drop_last()[k] == x;
            assert(s[k] == x);
        }
        lemma_replaced_lacks(s.drop_last(), c, by, d);
        let a = replaced(s.drop_last(), c, by);
        let b = if s.last() == c {
            by
        } else {
            seq![s.last()]
        };
        assert(!b.contains(d)) by {
            if s.last() != c {
                assert(s.contains(s.last()));
            }
        }
        assert forall|k: int| 0 <= k < (a + b).len() implies (a + b)[k] != d by {
            if k < a.len() {
                assert(a.contains(a[k]));
            } else {
                assert(b.contains(b[k - a.len()]));
            }
        }
    }
}

/// A buffer's content never breaks the line that it is sent on.
pub proof fn content_stays_on_one_line(s: Seq<char>)
    ensures
        !one_line(s).contains('\n'),
        !one_line(s).contains('\r'),
{
    let n = seq!['\\', 'n'];
    let r = seq!['\\', 'r'];
    lemma_replaced_lacks(s, '\n', n, '\n');
    lemma_replaced_lacks(replaced(s, '\n', n), '\r', r, '\n');
    lemma_replaced_lacks(replaced(s, '\n', n), '\r', r, '\r');
}

/// The line that looks for a window; none where there is nothing to look for.
pub fn find_window(words: &Vec<String>) -> (r: Option<String>)
    ensures
        opt_text(r) == (match last_word(plain_words(tokens("t"@, texts(words@), 1))) {
            Some(p) => Some("find-window "@ + p + seq!['\n']),
            None => None,
        }),
{
    let t = tokenize("t", words, 1);
    let plain = plain_words_of(&t);
    match last_of(&plain) {
        Some(p) => {
            let mut line: String = "find-window ".to_owned();
            line.append(p.as_str());
            line.push('\n');
            Some(line)
        },
        None => None,
    }
}

/// What is done about a file that is to be sourced.
pub enum SourceStep {
    /// The server is told of it.
    Send { line: String },
    /// It cannot be read, and that is said.
    Complain { message: String },
    /// It cannot be read, and nothing is said.
    Nothing,
}

/// What is done about a file that is to be sourced. `error` says why it cannot be read, if it
/// cannot: then the server is not told of it.
pub fn source_step(path: &str, error: &Option<String>, quiet: bool) -> (r: SourceStep)
    ensures
        match opt_text(*error) {
            None => r matches SourceStep::Send { line } && line@ == "source-file "@ + word_on_line(path@)
                + "\n"@,
            Some(e) => if quiet {
                r is Nothing
            } else {
                r matches SourceStep::Complain { message } && message@ == "psmux: "@ + path@ + ": "@ + e
            },
        },
{
    match error {
        None => {
            let mut line: String = "source-file ".to_owned();
            line.append(quote_word(path).as_str());
            line.append("\n");
            SourceStep::Send { line }
        },
        Some(e) => {
            if quiet {
                SourceStep::Nothing
            } else {
                let mut message: String = "psmux: ".to_owned();
                message.append(path);
                message.append(": ");
                message.append(e.as_str());
                SourceStep::Complain { message }
            }
        },
    }
}

} // verus!
