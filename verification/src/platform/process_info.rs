//! What a pane's processes tell: their names, their working directories, which
//! one is in the foreground, and whether one of them speaks to another system.

use vstd::prelude::*;
use crate::platform::process_kill::{
    breadth_first, descends, is_child, is_walk, leads, lemma_scan, lemma_visit, lemma_visit_settles,
    lemma_walk_descends, lemma_walk_length, queued, scan, visit, walk_is_complete,
};
use crate::text::{chars_of, ends_with, has_prefix, has_suffix, range_text, same, starts_with};
use crate::utf16::{decode_lossy, lossy_text};

verus! {

/// A process in a snapshot of the process table.
pub struct Proc {
    pub pid: u32,
    pub ppid: u32,
    /// The lower-case name of the executable.
    pub name: String,
}

/// The table that a snapshot holds: each process with its parent.
pub open spec fn table(procs: Seq<Proc>) -> Seq<(u32, u32)> {
    Seq::new(procs.len(), |i: int| (procs[i].pid, procs[i].ppid))
}

/// The text in lower case, by Unicode's mapping.
pub uninterp spec fn lowercase(s: Seq<char>) -> Seq<char>;

/// `str::to_lowercase` gives the lower-case equivalent of the text; the mapping
/// itself, Unicode's, is not stated.
pub assume_specification[ str::to_lowercase ](s: &str) -> (r: String)
    ensures
        r@ == lowercase(s@),
;

/// The code units before the first zero.
pub open spec fn before_zero(units: Seq<u16>) -> Seq<u16>
    decreases units.len(),
{
    if units.len() == 0 || units[0] == 0 {
        Seq::empty()
    } else {
        seq![units[0]] + before_zero(units.skip(1))
    }
}

/// The lower-case executable name in a field of the process table that ends with
/// the first zero.
pub fn exe_name_from_entry(field: &Vec<u16>) -> (r: String)
    ensures
        r@ == lowercase(lossy_text(before_zero(field@))),
{
    let mut units: Vec<u16> = Vec::new();
    let mut i: usize = 0;
    assert(field@.skip(0) =~= field@);
    while i < field.len() && field[i] != 0
        invariant
            i <= field.len(),
            units@ + before_zero(field@.skip(i as int)) == before_zero(field@),
        decreases field.len() - i,
    {
        let ghost rest = field@.skip(i as int);
        assert(rest.skip(1) =~= field@.skip(i + 1));
        units.push(field[i]);
        assert(units@ + before_zero(field@.skip(i + 1)) =~= before_zero(field@));
        i += 1;
    }
    assert(before_zero(field@.skip(i as int)) =~= Seq::<u16>::empty()) by {
        if i < field.len() {
            assert(field@.skip(i as int)[0] == 0);
        }
    }
    assert(units@ =~= before_zero(field@));
    let name = decode_lossy(&units);
    name.as_str().to_lowercase()
}

/// Whether an executable belongs to the system and is never the user's command.
pub open spec fn system_exe(name: Seq<char>) -> bool {
    ||| name == "conhost.exe"@
    ||| name == "csrss.exe"@
    ||| name == "dwm.exe"@
    ||| name == "services.exe"@
    ||| name == "svchost.exe"@
    ||| name == "wininit.exe"@
    ||| name == "winlogon.exe"@
    ||| name == "openconsole.exe"@
    ||| name == "runtimebroker.exe"@
}

/// Whether an executable belongs to the system and is never the user's command.
pub fn is_system_exe(name: &str) -> (r: bool)
    ensures
        r == system_exe(name@),
{
    same(name, "conhost.exe") || same(name, "csrss.exe") || same(name, "dwm.exe") || same(
        name,
        "services.exe",
    ) || same(name, "svchost.exe") || same(name, "wininit.exe") || same(name, "winlogon.exe") || same(
        name,
        "openconsole.exe",
    ) || same(name, "runtimebroker.exe")
}

/// An executable's name without one `.exe` at its end.
pub open spec fn stem(name: Seq<char>) -> Seq<char> {
    if has_suffix(name, ".exe"@) {
        name.take(name.len() - 4)
    } else {
        name
    }
}

/// An executable's name without one `.exe` at its end.
pub fn stem_of(name: &str) -> (r: String)
    ensures
        r@ == stem(name@),
{
    proof {
        reveal_strlit(".exe");
    }
    if ends_with(name, ".exe") {
        let v = chars_of(name);
        let r = range_text(&v, 0, v.len() - 4);
        assert(name@.subrange(0, name@.len() - 4) =~= name@.take(name@.len() - 4));
        r
    } else {
        name.to_owned()
    }
}

/// Whether a program only starts another one, which is the command that counts.
pub open spec fn wrapper_exe(name: Seq<char>) -> bool {
    let s = stem(name);
    ||| s == "cmd"@
    ||| s == "bash"@
    ||| s == "sh"@
    ||| s == "dash"@
    ||| s == "zsh"@
    ||| s == "fish"@
    ||| s == "npx"@
    ||| s == "npm"@
    ||| s == "pnpm"@
    ||| s == "yarn"@
    ||| s == "bunx"@
    ||| s == "env"@
    ||| s == "sudo"@
    ||| s == "runas"@
}

/// Whether a program only starts another one, which is the command that counts.
pub fn is_wrapper_exe(name: &str) -> (r: bool)
    ensures
        r == wrapper_exe(name@),
{
    let stem = stem_of(name);
    let s = stem.as_str();
    same(s, "cmd") || same(s, "bash") || same(s, "sh") || same(s, "dash") || same(s, "zsh") || same(s, "fish")
        || same(s, "npx") || same(s, "npm") || same(s, "pnpm") || same(s, "yarn") || same(s, "bunx") || same(
        s,
        "env",
    ) || same(s, "sudo") || same(s, "runas")
}

/// Whether a program passes the terminal on to another system.
pub open spec fn vt_bridge_exe(name: Seq<char>) -> bool {
    let s = stem(name);
    ||| s == "wsl"@
    ||| s == "ssh"@
    ||| s == "ubuntu"@
    ||| s == "debian"@
    ||| s == "kali"@
    ||| s == "fedoraremix"@
    ||| s == "opensuse-leap"@
    ||| s == "sles"@
    ||| s == "arch"@
    ||| has_prefix(s, "wsl"@)
}

/// Whether a program passes the terminal on to another system.
pub fn is_vt_bridge_exe(name: &str) -> (r: bool)
    ensures
        r == vt_bridge_exe(name@),
{
    let stem = stem_of(name);
    let s = stem.as_str();
    same(s, "wsl") || same(s, "ssh") || same(s, "ubuntu") || same(s, "debian") || same(s, "kali") || same(
        s,
        "fedoraremix",
    ) || same(s, "opensuse-leap") || same(s, "sles") || same(s, "arch") || starts_with(s, "wsl")
}

/// Whether the process at position `i` is a child of `parent` that can be the
/// user's command.
pub open spec fn candidate(procs: Seq<Proc>, parent: u32, i: int) -> bool {
    0 <= i < procs.len() && procs[i].ppid == parent && !system_exe(procs[i].name@)
}

/// Whether the process at position `i` is the candidate with the largest number,
/// the last of them where several entries have it.
pub open spec fn youngest(procs: Seq<Proc>, parent: u32, i: int) -> bool {
    candidate(procs, parent, i) && forall|j: int|
        candidate(procs, parent, j) ==> (#[trigger] procs[j]).pid < procs[i].pid || (procs[j].pid
            == procs[i].pid && j <= i)
}

/// The youngest child of `parent`, by its position in the snapshot.
fn youngest_child(procs: &Vec<Proc>, parent: u32) -> (r: Option<usize>)
    ensures
        r matches Some(i) ==> youngest(procs@, parent, i as int),
        r is None ==> forall|j: int| !candidate(procs@, parent, j),
{
    let mut best: Option<usize> = None;
    let mut i: usize = 0;
    while i < procs.len()
        invariant
            i <= procs.len(),
            best matches Some(b) ==> b < i && candidate(procs@, parent, b as int) && forall|j: int|
                j < i && candidate(procs@, parent, j) ==> (#[trigger] procs@[j]).pid
                    < procs@[b as int].pid || (procs@[j].pid == procs@[b as int].pid && j <= b),
            best is None ==> forall|j: int| j < i ==> !candidate(procs@, parent, j),
        decreases procs.len() - i,
    {
        if procs[i].ppid == parent && !is_system_exe(procs[i].name.as_str()) {
            match best {
                Some(b) => {
                    if procs[i].pid >= procs[b].pid {
                        best = Some(i);
                    }
                },
                None => {
                    best = Some(i);
                },
            }
        }
        i += 1;
    }
    best
}

/// Whether `pid` is the foreground process under `root`: its youngest child, or,
/// where that one is a wrapper with children of its own, the youngest of those.
pub open spec fn foreground(procs: Seq<Proc>, root: u32, pid: u32) -> bool {
    exists|i: int| #[trigger]
        youngest(procs, root, i) && if wrapper_exe(procs[i].name@) && exists|j: int|
            candidate(procs, procs[i].pid, j) {
            exists|j: int| #[trigger]
                youngest(procs, procs[i].pid, j) && procs[j].pid == pid
        } else {
            procs[i].pid == pid
        }
}

/// The foreground process under `root_pid`; none where it has no child that can
/// be the user's command.
pub fn find_foreground_child_pid(procs: &Vec<Proc>, root_pid: u32) -> (r: Option<u32>)
    ensures
        r matches Some(pid) ==> foreground(procs@, root_pid, pid),
        r is None <==> forall|j: int| !candidate(procs@, root_pid, j),
{
    match youngest_child(procs, root_pid) {
        None => None,
        Some(i) => {
            assert(candidate(procs@, root_pid, i as int));
            let chosen: u32 = procs[i].pid;
            if is_wrapper_exe(procs[i].name.as_str()) {
                match youngest_child(procs, chosen) {
                    Some(j) => {
                        assert(candidate(procs@, chosen, j as int));
                        Some(procs[j].pid)
                    },
                    None => Some(chosen),
                }
            } else {
                Some(chosen)
            }
        },
    }
}

/// There is at most one foreground process under a root.
pub proof fn foreground_is_unique(procs: Seq<Proc>, root: u32, a: u32, b: u32)
    requires
        foreground(procs, root, a),
        foreground(procs, root, b),
    ensures
        a == b,
{
    let i = choose|i: int| #[trigger]
        youngest(procs, root, i) && if wrapper_exe(procs[i].name@) && exists|j: int|
            candidate(procs, procs[i].pid, j) {
            exists|j: int| #[trigger] youngest(procs, procs[i].pid, j) && procs[j].pid == a
        } else {
            procs[i].pid == a
        };
    let k = choose|i: int| #[trigger]
        youngest(procs, root, i) && if wrapper_exe(procs[i].name@) && exists|j: int|
            candidate(procs, procs[i].pid, j) {
            exists|j: int| #[trigger] youngest(procs, procs[i].pid, j) && procs[j].pid == b
        } else {
            procs[i].pid == b
        };
    assert(procs[i].pid == procs[k].pid && i == k);
    if wrapper_exe(procs[i].name@) && exists|j: int| candidate(procs, procs[i].pid, j) {
        let m = choose|j: int| #[trigger] youngest(procs, procs[i].pid, j) && procs[j].pid == a;
        let n = choose|j: int| #[trigger] youngest(procs, procs[i].pid, j) && procs[j].pid == b;
        assert(procs[m].pid == procs[n].pid);
    }
}

/// Whether the entry at position `e` adds its process to a walk from `root`, as a
/// child of the walk's member at position `k`.
pub open spec fn discovers(t: Seq<(u32, u32)>, root: u32, k: nat, e: int) -> bool {
    let q = visit(t, root, k);
    k < q.len() && 0 <= e < t.len() && t[e].1 == q[k as int] && !scan(t, e, q, q[k as int]).contains(
        t[e].0,
    )
}

/// Whether a walk from `root` comes upon a program that passes the terminal on.
pub open spec fn meets_bridge(procs: Seq<Proc>, root: u32) -> bool {
    exists|k: nat, e: int| #[trigger]
        discovers(table(procs), root, k, e) && vt_bridge_exe(procs[e].name@)
}

/// Whether any descendant of `root_pid`, as a walk comes upon them, passes the
/// terminal on to another system.
pub fn has_vt_bridge_descendant(procs: &Vec<Proc>, root_pid: u32) -> (r: bool)
    ensures
        r == meets_bridge(procs@, root_pid),
{
    let ghost t = table(procs@);
    let mut queue: Vec<u32> = Vec::new();
    queue.push(root_pid);
    let mut head: usize = 0;
    assert(queue@ =~= visit(t, root_pid, 0));
    while head < queue.len()
        invariant
            head <= queue.len(),
            t == table(procs@),
            queue@ == visit(t, root_pid, head as nat),
            is_walk(t, root_pid, queue@),
            forall|k: nat, e: int|
                k < head && #[trigger] discovers(t, root_pid, k, e) ==> !vt_bridge_exe(
                    procs@[e].name@,
                ),
        decreases procs.len() + 1 - head,
    {
        let parent: u32 = queue[head];
        let ghost before = queue@;
        let mut i: usize = 0;
        while i < procs.len()
            invariant
                i <= procs.len(),
                t == table(procs@),
                head < before.len(),
                before == visit(t, root_pid, head as nat),
                parent == before[head as int],
                is_walk(t, root_pid, before),
                queue@ == scan(t, i as int, before, parent),
                is_walk(t, root_pid, queue@),
                forall|e: int|
                    e < i && #[trigger] discovers(t, root_pid, head as nat, e) ==> !vt_bridge_exe(
                        procs@[e].name@,
                    ),
            decreases procs.len() - i,
        {
            let pid: u32 = procs[i].pid;
            assert(t[i as int] == (pid, procs@[i as int].ppid));
            assert(queue@[0] == root_pid);
            if procs[i].ppid == parent && pid != root_pid && !queued(&queue, pid) {
                assert(discovers(t, root_pid, head as nat, i as int));
                if is_vt_bridge_exe(procs[i].name.as_str()) {
                    return true;
                }
                queue.push(pid);
            }
            proof {
                lemma_scan(t, i + 1, root_pid, before, head as int);
            }
            i += 1;
        }
        proof {
            lemma_walk_length(t, root_pid, before);
            lemma_scan(t, procs.len() as int, root_pid, before, head as int);
            assert forall|k: nat, e: int|
                k < head + 1 && #[trigger] discovers(
                    t,
                    root_pid,
                    k,
                    e,
                ) implies !vt_bridge_exe(procs@[e].name@) by {
                if k == head {
                    assert(discovers(t, root_pid, head as nat, e));
                }
            }
        }
        head += 1;
    }
    proof {
        assert forall|k: nat, e: int| #[trigger]
            discovers(t, root_pid, k, e) implies !vt_bridge_exe(procs@[e].name@) by {
            if k >= head {
                lemma_visit_settles(t, root_pid, head as nat, k);
            }
        }
    }
    false
}

proof fn lemma_joined_in_scan(t: Seq<(u32, u32)>, i: int, q: Seq<u32>, parent: u32, x: u32) -> (e:
    int)
    requires
        0 <= i <= t.len(),
        !q.contains(x),
        scan(t, i, q, parent).contains(x),
    ensures
        0 <= e < i,
        t[e] == (x, parent),
        !scan(t, e, q, parent).contains(x),
    decreases i,
{
    if scan(t, i - 1, q, parent).contains(x) {
        lemma_joined_in_scan(t, i - 1, q, parent, x)
    } else {
        i - 1
    }
}

proof fn lemma_joined_in_visit(t: Seq<(u32, u32)>, root: u32, m: nat, x: u32) -> (r: (nat, int))
    requires
        x != root,
        visit(t, root, m).contains(x),
    ensures
        discovers(t, root, r.0, r.1),
        t[r.1].0 == x,
    decreases m,
{
    let q = visit(t, root, (m - 1) as nat);
    if q.contains(x) {
        lemma_joined_in_visit(t, root, (m - 1) as nat, x)
    } else {
        ((m - 1) as nat, lemma_joined_in_scan(t, t.len() as int, q, q[m - 1], x))
    }
}

/// In a snapshot that lists no process twice, a walk comes upon a bridge exactly
/// if a descendant of the root is one.
pub proof fn bridge_is_a_descendant(procs: Seq<Proc>, root: u32)
    requires
        forall|i: int, j: int|
            0 <= i < j < procs.len() ==> (#[trigger] procs[i]).pid != (#[trigger] procs[j]).pid,
    ensures
        meets_bridge(procs, root) <==> exists|e: int|
            0 <= e < procs.len() && (#[trigger] procs[e]).pid != root && descends(
                table(procs),
                root,
                procs[e].pid,
            ) && vt_bridge_exe(procs[e].name@),
{
    let t = table(procs);
    if meets_bridge(procs, root) {
        let (k, e) = choose|k: nat, e: int| #[trigger]
            discovers(t, root, k, e) && vt_bridge_exe(procs[e].name@);
        let q = visit(t, root, k);
        lemma_visit(t, root, k);
        lemma_scan(t, e, root, q, k as int);
        let s = scan(t, e, q, q[k as int]);
        assert(s[0] == root);
        assert(t[e] == (procs[e].pid, procs[e].ppid));
        lemma_walk_descends(t, root, q, k as int);
        let path = choose|path: Seq<u32>| leads(t, path, root, q[k as int]);
        let longer = path.push(procs[e].pid);
        assert(is_child(t, procs[e].pid, q[k as int]));
        assert forall|n: int| 0 <= n < longer.len() - 1 implies is_child(
            t,
            #[trigger] longer[n + 1],
            longer[n],
        ) by {
            if n < path.len() - 1 {
                assert(is_child(t, path[n + 1], path[n]));
            }
        }
        assert(leads(t, longer, root, procs[e].pid));
        assert(procs[e].pid != root);
    }
    if exists|e: int|
        0 <= e < procs.len() && (#[trigger] procs[e]).pid != root && descends(
            t,
            root,
            procs[e].pid,
        ) && vt_bridge_exe(procs[e].name@) {
        let e = choose|e: int|
            0 <= e < procs.len() && (#[trigger] procs[e]).pid != root && descends(
                t,
                root,
                procs[e].pid,
            ) && vt_bridge_exe(procs[e].name@);
        walk_is_complete(t, root, procs[e].pid);
        assert(breadth_first(t, root).contains(procs[e].pid));
        let (k, f) = lemma_joined_in_visit(t, root, t.len() + 1, procs[e].pid);
        assert(procs[f].pid == procs[e].pid);
        assert(f == e);
    }
}

/// The name to show for a pane: that of the foreground process where there is one
/// other than the pane's own and its name could be read.
pub fn get_foreground_process_name(pid: u32, target: Option<u32>, name: Option<String>) -> (r:
    Option<String>)
    ensures
        r == (if target is Some && target != Some(pid) {
            name
        } else {
            None
        }),
{
    match target {
        Some(t) => if t != pid {
            name
        } else {
            None
        },
        None => None,
    }
}

/// The working directory of a pane: that of the foreground process where there is
/// one other than the pane's own and its directory could be read, else that of
/// the pane's own process.
pub fn get_foreground_cwd(
    pid: u32,
    target: Option<u32>,
    target_cwd: Option<String>,
    own_cwd: Option<String>,
) -> (r: Option<String>)
    ensures
        r == (if target is Some && target != Some(pid) && target_cwd is Some {
            target_cwd
        } else {
            own_cwd
        }),
{
    match target {
        Some(t) => if t != pid && target_cwd.is_some() {
            target_cwd
        } else {
            own_cwd
        },
        None => own_cwd,
    }
}

/// A text without the backslashes at its end.
pub open spec fn without_trailing_backslashes(s: Seq<char>) -> Seq<char>
    decreases s.len(),
{
    if s.len() > 0 && s.last() == '\\' {
        without_trailing_backslashes(s.drop_last())
    } else {
        s
    }
}

/// The next step in reading the working directory out of another process.
#[derive(Debug)]
pub enum CwdStep {
    /// Ask for the address of the process's environment block.
    QueryBlock,
    /// Read a pointer at this address.
    ReadPointer { at: isize },
    /// Read the length and the buffer of a counted string at this address.
    ReadString { at: isize },
    /// Read this many bytes of UTF-16 at this address.
    ReadText { at: isize, bytes: u16 },
    /// The directory.
    Found(String),
    /// The directory cannot be read.
    Unreadable,
}

/// What a step of reading the working directory gave.
#[derive(Debug)]
pub enum CwdReply {
    /// The status of the query and the block's address.
    Block { status: i32, address: isize },
    /// Whether the read succeeded, and the pointer.
    Pointer { ok: bool, pointer: isize },
    /// Whether the read succeeded, and the counted string.
    Counted { ok: bool, length: u16, buffer: isize },
    /// Whether the read succeeded, and the code units.
    Text { ok: bool, units: Vec<u16> },
}

/// Starts reading the working directory of a process that was opened: a handle of
/// zero or minus one means that it was not.
pub fn get_process_cwd(handle: isize) -> (s: CwdStep)
    ensures
        if handle == 0 || handle == -1 {
            s is Unreadable
        } else {
            s is QueryBlock
        },
{
    if handle == 0 || handle == -1 {
        CwdStep::Unreadable
    } else {
        CwdStep::QueryBlock
    }
}

/// Where the process parameters are in an environment block.
pub open spec fn params_offset(wide: bool) -> isize {
    if wide {
        0x20
    } else {
        0x10
    }
}

/// Where the working directory is in the process parameters.
pub open spec fn cwd_offset(wide: bool) -> isize {
    if wide {
        0x38
    } else {
        0x24
    }
}

/// Goes on with reading the working directory of another process: from its
/// environment block to its parameters, to the directory's string, to its text
/// without backslashes at the end. `wide` tells a process with 64-bit pointers.
pub fn read_process_cwd(wide: bool, reply: CwdReply) -> (s: CwdStep)
    ensures
        match reply {
            CwdReply::Block { status, address } => if status != 0 || address == 0 {
                s is Unreadable
            } else {
                s matches CwdStep::ReadPointer { at } && at == address.wrapping_add(
                    params_offset(wide),
                )
            },
            CwdReply::Pointer { ok, pointer } => if !ok || pointer == 0 {
                s is Unreadable
            } else {
                s matches CwdStep::ReadString { at } && at == pointer.wrapping_add(
                    cwd_offset(wide),
                )
            },
            CwdReply::Counted { ok, length, buffer } => if !ok || length == 0 || buffer == 0 {
                s is Unreadable
            } else {
                s matches CwdStep::ReadText { at, bytes } && at == buffer && bytes == length
            },
            CwdReply::Text { ok, units } => if !ok {
                s is Unreadable
            } else {
                s matches CwdStep::Found(cwd) && cwd@ == without_trailing_backslashes(
                    lossy_text(units@),
                )
            },
        },
{
    match reply {
        CwdReply::Block { status, address } => {
            if status != 0 || address == 0 {
                CwdStep::Unreadable
            } else {
                let offset: isize = if wide { 0x20 } else { 0x10 };
                CwdStep::ReadPointer { at: address.wrapping_add(offset) }
            }
        },
        CwdReply::Pointer { ok, pointer } => {
            if !ok || pointer == 0 {
                CwdStep::Unreadable
            } else {
                let offset: isize = if wide { 0x38 } else { 0x24 };
                CwdStep::ReadString { at: pointer.wrapping_add(offset) }
            }
        },
        CwdReply::Counted { ok, length, buffer } => {
            if !ok || length == 0 || buffer == 0 {
                CwdStep::Unreadable
            } else {
                CwdStep::ReadText { at: buffer, bytes: length }
            }
        },
        CwdReply::Text { ok, units } => {
            if !ok {
                CwdStep::Unreadable
            } else {
                let path = decode_lossy(&units);
                let v = chars_of(path.as_str());
                let mut n: usize = v.len();
                assert(v@.take(n as int) =~= v@);
                while n > 0 && v[n - 1] == '\\'
                    invariant
                        n <= v.len(),
                        without_trailing_backslashes(v@.take(n as int))
                            == without_trailing_backslashes(v@),
                    decreases n,
                {
                    assert(v@.take(n as int).drop_last() =~= v@.take(n - 1));
                    n -= 1;
                }
                assert(v@.subrange(0, n as int) =~= v@.take(n as int));
                CwdStep::Found(range_text(&v, 0, n))
            }
        },
    }
}

/// Whether the log of automatic names takes an entry, given how many came before it: it holds the
/// first hundred.
pub fn logs_entry(n: u32) -> (r: bool)
    ensures
        r == (n < 100),
{
    n < 100
}

} // verus!
