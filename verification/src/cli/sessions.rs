//! The sessions that are running: which of them a command means, how they are
//! listed, and when a new one takes over a server that stands by.

use vstd::prelude::*;
use crate::cli::commands::last_format;
use crate::cli::global::file_base;
use crate::cli::new_session::NewSession;
use crate::cli::server_args::ServerSetup;
use crate::cli::words::{
    in_quotes, last_value, opt_text, push_quoted, push_word, tokenize, tokens, value_of,
};
use crate::text::{
    chars_of, contains, ends_with, has_prefix, has_substring, has_suffix, range_text, same, skip, stands_at,
    starts_with, texts, trim, trim_end, trimmed, trimmed_end,
};

verus! {

/// A port file's name without its ending; none for another file.
pub open spec fn port_file_of(name: Seq<char>) -> Option<Seq<char>> {
    if has_suffix(name, ".port"@) {
        Some(name.take(name.len() - 5))
    } else {
        None
    }
}

/// A port file's name without its ending; none for another file.
pub fn session_of_file(name: &str) -> (r: Option<String>)
    ensures
        opt_text(r) == port_file_of(name@),
{
    proof {
        reveal_strlit(".port");
    }
    if ends_with(name, ".port") {
        let v = chars_of(name);
        let r = range_text(&v, 0, v.len() - 5);
        assert(name@.subrange(0, name@.len() - 5) =~= name@.take(name@.len() - 5));
        Some(r)
    } else {
        None
    }
}

/// What stands before a session's name in its name space.
pub open spec fn space_prefix(socket: Seq<char>) -> Seq<char> {
    socket + "__"@
}

fn prefix_of(socket: &str) -> (r: String)
    ensures
        r@ == space_prefix(socket@),
{
    let mut s: String = socket.to_owned();
    s.append("__");
    s
}

/// Whether a session is listed: it is in the name space asked for, or, where none
/// is, in none. One that stands by is never listed.
pub open spec fn listed(base: Seq<char>, socket: Option<Seq<char>>) -> bool {
    match socket {
        Some(l) => has_prefix(base, space_prefix(l)) && !names_warm(base),
        None => !has_substring(base, "__"@),
    }
}

/// Whether a session is listed.
pub fn is_listed(base: &str, socket: &Option<String>) -> (r: bool)
    ensures
        r == listed(base@, opt_text(*socket)),
{
    match socket {
        Some(l) => {
            let p = prefix_of(l.as_str());
            starts_with(base, p.as_str()) && !is_warm_base(base)
        },
        None => !contains(base, "__"),
    }
}

/// Whether a session ends with its server: it is in the name space asked for, or
/// none is asked for.
pub fn is_killed(base: &str, socket: &Option<String>) -> (r: bool)
    ensures
        r == (match opt_text(*socket) {
            Some(l) => has_prefix(base@, space_prefix(l)),
            None => true,
        }),
{
    match socket {
        Some(l) => {
            let p = prefix_of(l.as_str());
            starts_with(base, p.as_str())
        },
        None => true,
    }
}

/// A session's name as it is shown: without its name space.
pub open spec fn shown_name(base: Seq<char>, socket: Option<Seq<char>>) -> Seq<char> {
    match socket {
        Some(l) => if has_prefix(base, space_prefix(l)) {
            base.skip(space_prefix(l).len() as int)
        } else {
            base
        },
        None => base,
    }
}

/// A session's name as it is shown.
pub fn display_name(base: &str, socket: &Option<String>) -> (r: String)
    ensures
        r@ == shown_name(base@, opt_text(*socket)),
{
    match socket {
        Some(l) => {
            let p = prefix_of(l.as_str());
            if starts_with(base, p.as_str()) {
                skip(base, p.as_str().unicode_len())
            } else {
                base.to_owned()
            }
        },
        None => base.to_owned(),
    }
}

/// A session's name is shown as it was given, whatever name space it is in, and the session is
/// listed there unless it stands by.
pub proof fn name_is_shown_as_given(socket: Option<Seq<char>>, name: Seq<char>)
    ensures
        shown_name(file_base(socket, name), socket) == name,
        socket is Some ==> listed(file_base(socket, name), socket) == !names_warm(
            file_base(socket, name),
        ),
{
    if let Some(l) = socket {
        let p = space_prefix(l);
        let b = file_base(socket, name);
        assert(b =~= p + name);
        assert(b.take(p.len() as int) =~= p);
        assert(b.skip(p.len() as int) =~= name);
    }
}

/// The name that a filter asks for, where it compares the session's name.
pub open spec fn filter_name(filter: Seq<char>) -> Option<Seq<char>> {
    let head = "#{==:#{session_name},"@;
    if has_prefix(filter, head) && has_suffix(filter.skip(head.len() as int), "}"@) {
        let rest = filter.skip(head.len() as int);
        Some(rest.take(rest.len() - 1))
    } else {
        None
    }
}

fn name_in_filter(filter: &str) -> (r: Option<String>)
    ensures
        opt_text(r) == filter_name(filter@),
{
    let head = "#{==:#{session_name},";
    if starts_with(filter, head) {
        let rest = skip(filter, head.unicode_len());
        proof {
            reveal_strlit("}");
        }
        if ends_with(rest.as_str(), "}") {
            let v = chars_of(rest.as_str());
            let r = range_text(&v, 0, v.len() - 1);
            assert(rest@.subrange(0, rest@.len() - 1) =~= rest@.take(rest@.len() - 1));
            return Some(r);
        }
    }
    None
}

/// Whether a session passes a filter: its name is the one asked for, or the filter
/// is part of its line.
pub open spec fn passes(filter: Option<Seq<char>>, shown: Seq<char>, line: Seq<char>) -> bool {
    match filter {
        Some(f) => match filter_name(f) {
            Some(n) => shown == n,
            None => has_substring(line, f),
        },
        None => true,
    }
}

/// A session's line in the list: the server's answer, without the white space at
/// its end, where a format was asked for or the answer is not blank; else its
/// name. None where it does not pass the filter.
pub open spec fn list_line(
    answer: Seq<char>,
    has_format: bool,
    shown: Seq<char>,
    filter: Option<Seq<char>>,
) -> Option<Seq<char>> {
    let line = if has_format || trimmed(answer).len() > 0 {
        trimmed_end(answer)
    } else {
        shown
    };
    if passes(filter, shown, line) {
        Some(line)
    } else {
        None
    }
}

/// A session's line in the list.
pub fn session_line(
    answer: &str,
    has_format: bool,
    base: &str,
    socket: &Option<String>,
    filter: &Option<String>,
) -> (r: Option<String>)
    ensures
        opt_text(r) == list_line(
            answer@,
            has_format,
            shown_name(base@, opt_text(*socket)),
            opt_text(*filter),
        ),
{
    let shown = display_name(base, socket);
    let bare = trim(answer);
    let line: String = if has_format || !bare.as_str().is_empty() {
        trim_end(answer)
    } else {
        shown.clone()
    };
    match filter {
        Some(f) => {
            let ok: bool = match name_in_filter(f.as_str()) {
                Some(n) => same(shown.as_str(), n.as_str()),
                None => contains(line.as_str(), f.as_str()),
            };
            if ok {
                Some(line)
            } else {
                None
            }
        },
        None => Some(line),
    }
}

/// The format and the filter of a list of sessions.
pub fn parse_list_sessions(words: &Vec<String>) -> (r: (Option<String>, Option<String>))
    ensures
        ({
            let t = tokens("Ff"@, texts(words@), 1);
            &&& opt_text(r.0) == last_format(t)
            &&& opt_text(r.1) == last_value(t, "-f"@)
        }),
{
    let t = tokenize("Ff", words, 1);
    (crate::cli::commands::format_of(&t), value_of(&t, "-f"))
}

/// The line that asks a server about its session.
pub fn session_query(format: &Option<String>) -> (r: String)
    ensures
        r@ == (match opt_text(*format) {
            Some(f) => "list-sessions -F"@ + seq![' '] + in_quotes(f) + seq!['\n'],
            None => "session-info\n"@,
        }),
{
    match format {
        Some(f) => {
            let mut line: String = "list-sessions -F".to_owned();
            push_quoted(&mut line, f.as_str());
            line.push('\n');
            line
        },
        None => "session-info\n".to_owned(),
    }
}

/// What becomes of a session that is asked for by name.
#[derive(Clone, Copy, PartialEq, Eq, Structural, Debug)]
pub enum Existing {
    /// It is not there; create it.
    Create,
    /// It left a file behind; remove that and create it.
    Replace,
    /// It is there; attach to it.
    Attach,
    /// It is there; creating it again is an error.
    Duplicate,
}

/// What becomes of a session that is asked for by name.
pub fn existing_session(has_file: bool, alive: bool, attach: bool) -> (r: Existing)
    ensures
        r == (if !has_file {
            Existing::Create
        } else if !alive {
            Existing::Replace
        } else if attach {
            Existing::Attach
        } else {
            Existing::Duplicate
        }),
{
    if !has_file {
        Existing::Create
    } else if !alive {
        Existing::Replace
    } else if attach {
        Existing::Attach
    } else {
        Existing::Duplicate
    }
}

/// The files' name of the server that stands by.
pub open spec fn warm_file_base(socket: Option<Seq<char>>) -> Seq<char> {
    match socket {
        Some(l) => l + "____warm__"@,
        None => "__warm__"@,
    }
}

/// The files' name of the server that stands by.
pub fn warm_base(socket: &Option<String>) -> (r: String)
    ensures
        r@ == warm_file_base(opt_text(*socket)),
{
    match socket {
        Some(l) => {
            let mut s: String = l.clone();
            s.append("____warm__");
            s
        },
        None => "__warm__".to_owned(),
    }
}

/// The files of the server that stands by are those of a session of its own name.
pub proof fn warm_base_is_a_file_base(socket: Option<Seq<char>>)
    ensures
        warm_file_base(socket) == file_base(socket, "__warm__"@),
{
    reveal_strlit("____warm__");
    reveal_strlit("__warm__");
    reveal_strlit("__");
    assert("____warm__"@ =~= "__"@ + "__warm__"@);
    if let Some(l) = socket {
        assert(l + "____warm__"@ =~= l + "__"@ + "__warm__"@);
    }
}

/// Whether files' names are those of a server that stands by, in any name space.
pub open spec fn names_warm(base: Seq<char>) -> bool {
    base == "__warm__"@ || has_suffix(base, "____warm__"@)
}

/// Whether files' names are those of a server that stands by, in any name space.
pub fn is_warm_base(base: &str) -> (r: bool)
    ensures
        r == names_warm(base@),
{
    same(base, "__warm__") || ends_with(base, "____warm__")
}

/// The server that stands by is known by its files' name.
pub proof fn warm_base_is_known(socket: Option<Seq<char>>)
    ensures
        names_warm(warm_file_base(socket)),
{
    if let Some(l) = socket {
        let base = l + "____warm__"@;
        assert(base.skip(base.len() - "____warm__"@.len()) =~= "____warm__"@);
    }
}

proof fn lemma_warm_has_a_space(base: Seq<char>)
    requires
        names_warm(base),
    ensures
        has_substring(base, "__"@),
{
    reveal_strlit("__");
    reveal_strlit("__warm__");
    reveal_strlit("____warm__");
    let at = if base == "__warm__"@ {
        0
    } else {
        base.len() - 10
    };
    assert(base.skip(at)[0] == '_' && base.skip(at)[1] == '_');
    assert(base.subrange(at, at + 2) =~= "__"@);
    assert(stands_at(base, "__"@, at));
}

/// A server that stands by is listed in no name space.
pub proof fn standby_is_not_listed(base: Seq<char>, socket: Option<Seq<char>>)
    requires
        names_warm(base),
    ensures
        !listed(base, socket),
{
    lemma_warm_has_a_space(base);
}

/// Whether standing by is switched off by the environment.
pub fn warm_switched_off(value: &Option<String>) -> (r: bool)
    ensures
        r == (opt_text(*value) == Some("1"@) || opt_text(*value) == Some("true"@)),
{
    match value {
        Some(v) => same(v.as_str(), "1") || same(v.as_str(), "true"),
        None => false,
    }
}

/// Whether a new session may take over the server that stands by: that has the
/// common configuration, directory and shell, and nothing else is asked for.
pub fn may_claim_warm(warm_disabled: bool, custom_config: bool, s: &NewSession) -> (r: bool)
    ensures
        r == (!warm_disabled && !custom_config && s.command is None && s.raw is None && s.dir is None
            && s.env@.len() == 0),
{
    !warm_disabled && !custom_config && s.command.is_none() && s.raw.is_none() && s.dir.is_none()
        && s.env.len() == 0
}

/// The line that takes over a server that stands by. Name and directory come as
/// they are quoted on the line.
pub fn claim_line(quoted_name: &str, quoted_dir: &Option<String>) -> (r: String)
    ensures
        r@ == "claim-session"@ + seq![' '] + quoted_name@ + (match opt_text(*quoted_dir) {
            Some(d) => seq![' '] + d,
            None => Seq::empty(),
        }) + seq!['\n'],
{
    let mut line: String = "claim-session".to_owned();
    push_word(&mut line, quoted_name);
    let ghost before = line@;
    if let Some(d) = quoted_dir {
        push_word(&mut line, d.as_str());
    }
    assert(line@ =~= before + (match opt_text(*quoted_dir) {
        Some(d) => seq![' '] + d,
        None => Seq::empty(),
    }));
    line.push('\n');
    line
}

/// The setup of a server that stands by, in a terminal of the given size: one row
/// is left for the status line, and a size without cells is left out.
pub fn warm_setup(socket: &Option<String>, terminal: Option<(u16, u16)>) -> (r: ServerSetup)
    ensures
        r.name@ == "__warm__"@,
        opt_text(r.socket) == opt_text(*socket),
        r.command is None && r.dir is None && r.window is None && r.group is None && r.raw is None,
        r.env@.len() == 0,
        match terminal {
            Some((w, h)) => if w > 0 && h > 1 {
                r.width == Some(w) && r.height == Some((h - 1) as u16)
            } else {
                r.width is None && r.height is None
            },
            None => r.width is None && r.height is None,
        },
{
    let (width, height): (Option<u16>, Option<u16>) = match terminal {
        Some((w, h)) => if w > 0 && h > 1 {
            (Some(w), Some(h - 1))
        } else {
            (None, None)
        },
        None => (None, None),
    };
    ServerSetup {
        name: "__warm__".to_owned(),
        socket: socket.clone(),
        command: None,
        dir: None,
        window: None,
        width,
        height,
        group: None,
        env: Vec::new(),
        raw: None,
    }
}

/// The session to attach to: the one asked for, else the default, else the last
/// one, else the first by number.
pub open spec fn attached_session(
    asked: Option<Seq<char>>,
    default_name: Option<Seq<char>>,
    last: Option<Seq<char>>,
    socket: Option<Seq<char>>,
) -> Seq<char> {
    match asked {
        Some(s) => s,
        None => match default_name {
            Some(s) => s,
            None => match last {
                Some(s) => s,
                None => file_base(socket, "0"@),
            },
        },
    }
}

/// The session to attach to.
pub fn session_to_attach(
    asked: Option<String>,
    default_name: Option<String>,
    last: Option<String>,
    socket: &Option<String>,
) -> (r: String)
    ensures
        r@ == attached_session(
            opt_text(asked),
            opt_text(default_name),
            opt_text(last),
            opt_text(*socket),
        ),
{
    match asked {
        Some(s) => s,
        None => match default_name {
            Some(s) => s,
            None => match last {
                Some(s) => s,
                None => crate::cli::global::port_file_base(socket, "0"),
            },
        },
    }
}

/// How many times a new server is looked for, and how many milliseconds apart.
pub const START_TRIES: u32 = 500;

pub const START_WAIT_MS: u64 = 10;

/// The next step while a server starts.
#[derive(Clone, Copy, PartialEq, Eq, Structural, Debug)]
pub enum StartStep {
    /// Wait for this many milliseconds and look again.
    Wait { ms: u64 },
    /// The server has written its files.
    Started,
    /// It has not in the time that it is given.
    Late,
}

/// The next step while a server starts, given how often it was waited for and whether its file is
/// there.
pub fn start_step(waited: u32, has_file: bool) -> (r: StartStep)
    ensures
        r == (if has_file {
            StartStep::Started
        } else if waited < START_TRIES {
            StartStep::Wait { ms: START_WAIT_MS }
        } else {
            StartStep::Late
        }),
{
    if has_file {
        StartStep::Started
    } else if waited < START_TRIES {
        StartStep::Wait { ms: START_WAIT_MS }
    } else {
        StartStep::Late
    }
}

/// What is said of a new session that is not there: its server wrote no file, or it is not alive
/// although it did.
pub open spec fn start_fault(name: Seq<char>, has_file: bool, alive: bool) -> Option<Seq<char>> {
    if !has_file {
        Some("psmux: failed to create session '"@ + name + "'"@)
    } else if !alive {
        Some("psmux: session '"@ + name + "' exited immediately (check shell command)"@)
    } else {
        None
    }
}

/// What is said of a new session that is not there, and nothing of one that is.
pub fn start_failure(name: &str, has_file: bool, alive: bool) -> (r: Option<String>)
    ensures
        opt_text(r) == start_fault(name@, has_file, alive),
{
    if !has_file {
        let mut s: String = "psmux: failed to create session '".to_owned();
        s.append(name);
        s.append("'");
        Some(s)
    } else if !alive {
        let mut s: String = "psmux: session '".to_owned();
        s.append(name);
        s.append("' exited immediately (check shell command)");
        Some(s)
    } else {
        None
    }
}

} // verus!
