//! Switching a client to another session.

use vstd::prelude::*;
use crate::cli::words::opt_text;
use crate::text::{has_prefix, same, starts_with, texts, trim, trimmed};

verus! {

/// Where a client goes.
pub enum Switch {
    /// To a session: the clients are sent this line.
    Go { line: String },
    /// Nowhere: this is shown.
    Stay { message: String },
}

/// Where a session stands in the list.
pub open spec fn session_place(sessions: Seq<Seq<char>>, name: Seq<char>, i: int) -> Option<int>
    decreases sessions.len() - i,
{
    if i < 0 || i >= sessions.len() {
        None
    } else if sessions[i] == name {
        Some(i)
    } else {
        session_place(sessions, name, i + 1)
    }
}

/// The first session whose name begins with a text.
pub open spec fn session_beginning(sessions: Seq<Seq<char>>, start: Seq<char>, i: int) -> Option<Seq<char>>
    decreases sessions.len() - i,
{
    if i < 0 || i >= sessions.len() {
        None
    } else if has_prefix(sessions[i], start) {
        Some(sessions[i])
    } else {
        session_beginning(sessions, start, i + 1)
    }
}

/// The session that a name means: the one of this very name, else the first that begins so.
pub open spec fn named_session(sessions: Seq<Seq<char>>, target: Seq<char>) -> Option<Seq<char>> {
    if target.len() == 0 {
        None
    } else if sessions.contains(target) {
        Some(target)
    } else {
        session_beginning(sessions, target, 0)
    }
}

/// The session behind the current one, around the end of the list.
pub open spec fn next_session(sessions: Seq<Seq<char>>, current: Seq<char>) -> Option<Seq<char>> {
    if sessions.len() == 0 {
        None
    } else {
        match session_place(sessions, current, 0) {
            Some(i) => if i + 1 < sessions.len() {
                Some(sessions[i + 1])
            } else {
                Some(sessions[0])
            },
            None => Some(sessions[0]),
        }
    }
}

/// The session before the current one, around the end of the list.
pub open spec fn previous_session(sessions: Seq<Seq<char>>, current: Seq<char>) -> Option<Seq<char>> {
    if sessions.len() == 0 {
        None
    } else {
        match session_place(sessions, current, 0) {
            Some(i) => if i > 0 {
                Some(sessions[i - 1])
            } else {
                Some(sessions.last())
            },
            None => Some(sessions.last()),
        }
    }
}

/// The last session that a client was in: it must be there still, and be another one.
pub open spec fn last_session(
    sessions: Seq<Seq<char>>,
    current: Seq<char>,
    last: Option<Seq<char>>,
) -> Option<Seq<char>> {
    match last {
        Some(s) => {
            let name = trimmed(s);
            if name.len() > 0 && name != current && sessions.contains(name) {
                Some(name)
            } else {
                None
            }
        },
        None => None,
    }
}

/// The session that is meant.
pub open spec fn meant_session(
    flag: char,
    target: Seq<char>,
    current: Seq<char>,
    sessions: Seq<Seq<char>>,
    last: Option<Seq<char>>,
) -> Option<Seq<char>> {
    if flag == 't' {
        named_session(sessions, target)
    } else if flag == 'n' {
        next_session(sessions, current)
    } else if flag == 'p' {
        previous_session(sessions, current)
    } else if flag == 'l' {
        last_session(sessions, current, last)
    } else {
        None
    }
}

/// What is shown where no session is meant.
pub open spec fn no_session_message(flag: char, target: Seq<char>, sessions: nat) -> Seq<char> {
    if flag == 't' && target.len() > 0 {
        "switch-client: session not found: "@ + target
    } else if flag == 'l' {
        "switch-client: no last session"@
    } else if sessions <= 1 {
        "switch-client: only one session available"@
    } else {
        "switch-client: no target session"@
    }
}

/// Whether this is where a client goes, given the session that is meant.
pub open spec fn is_switch(
    r: Switch,
    meant: Option<Seq<char>>,
    flag: char,
    target: Seq<char>,
    current: Seq<char>,
    sessions: nat,
) -> bool {
    match meant {
        Some(s) => if s != current {
            r matches Switch::Go { line } && line@ == "SWITCH "@ + s
        } else {
            r matches Switch::Stay { message } && message@ == "switch-client: already on that session"@
        },
        None => r matches Switch::Stay { message } && message@ == no_session_message(flag, target, sessions),
    }
}

fn find_session(sessions: &Vec<String>, name: &str) -> (r: Option<usize>)
    ensures
        r matches Some(i) ==> i < sessions@.len() && session_place(texts(sessions@), name@, 0) == Some(
            i as int,
        ),
        r is None ==> session_place(texts(sessions@), name@, 0) is None,
        r is Some == texts(sessions@).contains(name@),
{
    let ghost t = texts(sessions@);
    let mut i: usize = 0;
    while i < sessions.len()
        invariant
            i <= sessions.len(),
            t == texts(sessions@),
            session_place(t, name@, i as int) == session_place(t, name@, 0),
            forall|j: int| 0 <= j < i ==> t[j] != name@,
        decreases sessions.len() - i,
    {
        assert(t[i as int] == sessions@[i as int]@);
        if same(sessions[i].as_str(), name) {
            return Some(i);
        }
        i += 1;
    }
    None
}

fn find_beginning(sessions: &Vec<String>, start: &str) -> (r: Option<String>)
    ensures
        opt_text(r) == session_beginning(texts(sessions@), start@, 0),
{
    let ghost t = texts(sessions@);
    let mut i: usize = 0;
    while i < sessions.len()
        invariant
            i <= sessions.len(),
            t == texts(sessions@),
            session_beginning(t, start@, i as int) == session_beginning(t, start@, 0),
        decreases sessions.len() - i,
    {
        assert(t[i as int] == sessions@[i as int]@);
        if starts_with(sessions[i].as_str(), start) {
            return Some(sessions[i].clone());
        }
        i += 1;
    }
    None
}

fn find_meant(
    flag: char,
    target: &str,
    current: &str,
    sessions: &Vec<String>,
    last: &Option<String>,
) -> (r: Option<String>)
    ensures
        opt_text(r) == meant_session(flag, target@, current@, texts(sessions@), opt_text(*last)),
{
    let ghost t = texts(sessions@);
    let n: usize = sessions.len();
    assert(t.len() == n);
    if flag == 't' {
        if target.unicode_len() == 0 {
            None
        } else if find_session(sessions, target).is_some() {
            Some(target.to_owned())
        } else {
            find_beginning(sessions, target)
        }
    } else if flag == 'n' {
        if n == 0 {
            return None;
        }
        let to: usize = match find_session(sessions, current) {
            Some(i) => if i + 1 < n {
                i + 1
            } else {
                0
            },
            None => 0,
        };
        assert(t[to as int] == sessions@[to as int]@);
        Some(sessions[to].clone())
    } else if flag == 'p' {
        if n == 0 {
            return None;
        }
        let to: usize = match find_session(sessions, current) {
            Some(i) => if i > 0 {
                i - 1
            } else {
                n - 1
            },
            None => n - 1,
        };
        assert(t[to as int] == sessions@[to as int]@);
        Some(sessions[to].clone())
    } else if flag == 'l' {
        match last {
            Some(s) => {
                let name = trim(s.as_str());
                if name.as_str().unicode_len() > 0 && !same(name.as_str(), current) && find_session(
                    sessions,
                    name.as_str(),
                ).is_some() {
                    Some(name)
                } else {
                    None
                }
            },
            None => None,
        }
    } else {
        None
    }
}

/// Where a client goes that is to be switched to another session: to the named one with the
/// flag `t`, to the next with `n`, to the one before with `p`, and with `l` to the last one,
/// whose name was kept in a file. `sessions` are all sessions in the order of their names.
pub fn switch_client(
    flag: char,
    target: &str,
    current: &str,
    sessions: &Vec<String>,
    last: &Option<String>,
) -> (r: Switch)
    ensures
        is_switch(
            r,
            meant_session(flag, target@, current@, texts(sessions@), opt_text(*last)),
            flag,
            target@,
            current@,
            sessions@.len(),
        ),
{
    match find_meant(flag, target, current, sessions, last) {
        Some(s) => {
            if same(s.as_str(), current) {
                Switch::Stay { message: "switch-client: already on that session".to_owned() }
            } else {
                let mut line = "SWITCH ".to_owned();
                line.append(s.as_str());
                Switch::Go { line }
            }
        },
        None => {
            let message = if flag == 't' && target.unicode_len() > 0 {
                let mut m = "switch-client: session not found: ".to_owned();
                m.append(target);
                m
            } else if flag == 'l' {
                "switch-client: no last session".to_owned()
            } else if sessions.len() <= 1 {
                "switch-client: only one session available".to_owned()
            } else {
                "switch-client: no target session".to_owned()
            };
            Switch::Stay { message }
        },
    }
}

proof fn lemma_place(sessions: Seq<Seq<char>>, at: int, i: int)
    requires
        0 <= i <= at < sessions.len(),
        forall|a: int, b: int| 0 <= a < b < sessions.len() ==> sessions[a] != sessions[b],
    ensures
        session_place(sessions, sessions[at], i) == Some(at),
    decreases at - i,
{
    if i < at {
        assert(sessions[i] != sessions[at]);
        lemma_place(sessions, at, i + 1);
    }
}

/// Where no two sessions have the same name, going to the next session and then to the one
/// before ends where it began.
pub proof fn previous_session_undoes_next(sessions: Seq<Seq<char>>, at: int)
    requires
        0 <= at < sessions.len(),
        forall|a: int, b: int| 0 <= a < b < sessions.len() ==> sessions[a] != sessions[b],
    ensures
        previous_session(sessions, next_session(sessions, sessions[at])->0) == Some(sessions[at]),
        next_session(sessions, previous_session(sessions, sessions[at])->0) == Some(sessions[at]),
{
    let n = sessions.len() as int;
    lemma_place(sessions, at, 0);
    lemma_place(
        sessions,
        if at + 1 < n {
            at + 1
        } else {
            0
        },
        0,
    );
    lemma_place(
        sessions,
        if at > 0 {
            at - 1
        } else {
            n - 1
        },
        0,
    );
}

} // verus!
