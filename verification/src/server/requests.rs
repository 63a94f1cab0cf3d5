//! Requests that stand for themselves: pipes from panes, files of configuration, and the
//! prefix key.

use vstd::prelude::*;
use crate::cli::words::opt_text;
use crate::server::request_effects::Request;
use crate::text::{chars_of, has_char, has_prefix, lower_ascii, lowered_ascii, range_text, starts_with};

verus! {

/// Where the pipe of a pane stands in the list of pipes.
pub open spec fn pipe_place(pipes: Seq<usize>, pane: usize, i: int) -> Option<int>
    decreases pipes.len() - i,
{
    if i < 0 || i >= pipes.len() {
        None
    } else if pipes[i] == pane {
        Some(i)
    } else {
        pipe_place(pipes, pane, i + 1)
    }
}

/// Changes the pipes from panes to programs. `pipes` holds the pane of each of them. Without a
/// command the pane's pipe is closed; a toggle closes it where there is one; else a new one is
/// opened in its place. Handed back are the place of the pipe that is closed, and whether one is
/// opened, which stands last.
pub fn pipe_pane(pipes: &mut Vec<usize>, pane: usize, has_command: bool, toggle: bool) -> (r: (
    Option<usize>,
    bool,
))
    ensures
        ({
            let place = pipe_place(old(pipes)@, pane, 0);
            let kept = match place {
                Some(i) => old(pipes)@.remove(i),
                None => old(pipes)@,
            };
            &&& r.0 is Some == place is Some
            &&& r.0 matches Some(i) ==> place == Some(i as int)
            &&& r.1 == (has_command && !(toggle && place is Some))
            &&& final(pipes)@ == (if r.1 {
                kept.push(pane)
            } else {
                kept
            })
        }),
{
    let mut place: Option<usize> = None;
    let mut i: usize = 0;
    while i < pipes.len()
        invariant_except_break
            i <= pipes.len(),
            place is None,
            pipes@ == old(pipes)@,
            pipe_place(pipes@, pane, i as int) == pipe_place(pipes@, pane, 0),
        ensures
            pipes@ == old(pipes)@,
            place is Some == pipe_place(pipes@, pane, 0) is Some,
            place matches Some(p) ==> p < pipes@.len() && pipe_place(pipes@, pane, 0) == Some(p as int),
        decreases pipes.len() - i,
    {
        if pipes[i] == pane {
            place = Some(i);
            break;
        }
        i += 1;
    }
    let opens: bool = has_command && !(toggle && place.is_some());
    if let Some(p) = place {
        let _ = pipes.remove(p);
    }
    if opens {
        pipes.push(pane);
    }
    (place, opens)
}

/// Where no pane has two pipes, none has two afterwards.
pub proof fn panes_have_one_pipe(pipes: Seq<usize>, pane: usize)
    requires
        pipes.no_duplicates(),
    ensures
        ({
            let kept = match pipe_place(pipes, pane, 0) {
                Some(i) => pipes.remove(i),
                None => pipes,
            };
            kept.no_duplicates() && kept.push(pane).no_duplicates()
        }),
{
    lemma_pipe_place(pipes, pane, 0);
    match pipe_place(pipes, pane, 0) {
        Some(i) => {
            let kept = pipes.remove(i);
            assert forall|a: int, b: int| 0 <= a < kept.len() && 0 <= b < kept.len() && a != b implies kept[a]
                != kept[b] by {
                let x = if a < i {
                    a
                } else {
                    a + 1
                };
                let y = if b < i {
                    b
                } else {
                    b + 1
                };
                assert(kept[a] == pipes[x] && kept[b] == pipes[y]);
            }
            assert forall|a: int| 0 <= a < kept.len() implies kept[a] != pane by {
                let x = if a < i {
                    a
                } else {
                    a + 1
                };
                assert(kept[a] == pipes[x]);
                assert(pipes[x] != pipes[i]);
            }
        },
        None => {},
    }
}

proof fn lemma_pipe_place(pipes: Seq<usize>, pane: usize, i: int)
    requires
        0 <= i,
    ensures
        pipe_place(pipes, pane, i) matches Some(k) ==> i <= k < pipes.len() && pipes[k] == pane,
        pipe_place(pipes, pane, i) is None ==> forall|k: int| i <= k < pipes.len() ==> pipes[k] != pane,
    decreases pipes.len() - i,
{
    if i < pipes.len() && pipes[i] != pane {
        lemma_pipe_place(pipes, pane, i + 1);
    }
}

/// How a file of configuration is found.
pub enum SourcePlan {
    /// All files that a pattern matches.
    Pattern { pattern: String },
    /// The one file, whose name may be a format.
    OneFile,
}

/// Whether a path is given as a format.
pub open spec fn is_format_path(path: Seq<char>) -> bool {
    has_prefix(path, "-F "@) || has_prefix(path, "-F\t"@)
}

/// Whether a path is a pattern: a star or a question mark stands in it.
pub open spec fn is_pattern(path: Seq<char>) -> bool {
    !is_format_path(path) && (path.contains('*') || path.contains('?'))
}

/// A path with the home directory in place of a tilde at its beginning.
pub open spec fn at_home(path: Seq<char>, home: Seq<char>) -> Seq<char> {
    if has_prefix(path, "~"@) {
        home + path.skip(1)
    } else {
        path
    }
}

/// How a file of configuration is found.
pub fn source_file(path: &str, home: &str) -> (r: SourcePlan)
    ensures
        is_pattern(path@) ==> (r matches SourcePlan::Pattern { pattern } && pattern@ == at_home(
            path@,
            home@,
        )),
        !is_pattern(path@) ==> r is OneFile,
{
    if starts_with(path, "-F ") || starts_with(path, "-F\t") || !(has_char(path, '*') || has_char(
        path,
        '?',
    )) {
        return SourcePlan::OneFile;
    }
    if starts_with(path, "~") {
        proof {
            reveal_strlit("~");
        }
        let v = chars_of(path);
        let rest = range_text(&v, 1, v.len());
        assert(rest@ =~= path@.skip(1));
        let mut pattern = home.to_owned();
        pattern.append(rest.as_str());
        SourcePlan::Pattern { pattern }
    } else {
        SourcePlan::Pattern { pattern: path.to_owned() }
    }
}

/// The bytes that stand for the prefix key: the control character of a letter, a character
/// itself, and nothing for a key that is no character.
pub open spec fn prefix_bytes(key: Option<char>, control: bool) -> Seq<u8> {
    match key {
        Some(c) => if control {
            seq![((lowered_ascii(c) as u8) & 0x1F) as u8]
        } else {
            vstd::utf8::encode_utf8(seq![c])
        },
        None => Seq::empty(),
    }
}

/// The bytes that a pane gets when the prefix key is sent to it.
pub fn send_prefix(key: Option<char>, control: bool) -> (r: Vec<u8>)
    ensures
        r@ == prefix_bytes(key, control),
{
    match key {
        Some(c) => {
            if control {
                let byte: u8 = (lower_ascii(c) as u8) & 0x1F;
                let mut v: Vec<u8> = Vec::new();
                v.push(byte);
                assert(v@ =~= prefix_bytes(key, control));
                v
            } else {
                let mut s = String::new();
                s.push(c);
                assert(s@ =~= seq![c]);
                s.as_str().as_bytes_vec()
            }
        },
        None => Vec::new(),
    }
}

/// The sequence that tells the programs of a window that it got or lost the focus, where they
/// are told.
pub fn focus_sequence(focus_events: bool, focused: bool) -> (r: Option<&'static str>)
    ensures
        !focus_events ==> r is None,
        focus_events && focused ==> r is Some && (r->0)@ == "\x1b[I"@,
        focus_events && !focused ==> r is Some && (r->0)@ == "\x1b[O"@,
{
    if !focus_events {
        None
    } else if focused {
        Some("\x1b[I")
    } else {
        Some("\x1b[O")
    }
}

/// What is said of a request that this system has no means for.
pub open spec fn unavailable_text(k: Request) -> Option<Seq<char>> {
    match k {
        Request::LockClient => Some("lock: not available on Windows"@),
        Request::SuspendClient => Some("suspend: not available on Windows"@),
        _ => None,
    }
}

/// What is said of a request that this system has no means for, and nothing of any other.
pub fn unavailable_message(k: Request) -> (r: Option<String>)
    ensures
        opt_text(r) == unavailable_text(k),
{
    match k {
        Request::LockClient => Some("lock: not available on Windows".to_owned()),
        Request::SuspendClient => Some("suspend: not available on Windows".to_owned()),
        _ => None,
    }
}

/// What is said where a window that is to be linked to another could not be made.
pub fn link_failed_message() -> (r: &'static str)
    ensures
        r@ == "link-window: failed to create linked window"@,
{
    "link-window: failed to create linked window"
}

} // verus!
