//! The words before a subcommand, the subcommand's own words, and the session
//! that they go to.

use vstd::prelude::*;
use crate::cli::words::{dashed, is_dashed, opt_text};
use crate::text::{after_char, before_char, number, parse_number, same, split_once, texts, trim, trimmed};

verus! {

/// The flags before the subcommand that the program itself heeds.
pub struct GlobalFlags {
    /// The name space of the sessions.
    pub socket: Option<String>,
    /// The configuration file.
    pub config: Option<String>,
    /// 0 outside control mode, 1 in it, 2 in it without echo.
    pub control: u8,
}

/// What the global flags say.
pub struct GlobalsView {
    pub socket: Option<Seq<char>>,
    pub config: Option<Seq<char>>,
    pub control: u8,
}

impl View for GlobalFlags {
    type V = GlobalsView;

    open spec fn view(&self) -> GlobalsView {
        GlobalsView {
            socket: opt_text(self.socket),
            config: opt_text(self.config),
            control: self.control,
        }
    }
}

/// The flags as they are before any word was read.
pub open spec fn no_globals() -> GlobalsView {
    GlobalsView { socket: None, config: None, control: 0 }
}

/// How many words belong to the one at position `i`, before the subcommand: itself
/// and, for some flags, the value behind it. None for the subcommand.
pub open spec fn global_width(words: Seq<Seq<char>>, i: int) -> int {
    if (words[i] == "-L"@ || words[i] == "-f"@ || words[i] == "-S"@ || words[i] == "-t"@) && i + 1
        < words.len() {
        2
    } else if dashed(words[i]) {
        1
    } else {
        0
    }
}

/// The flags once the word at position `i` was read.
pub open spec fn with_global(words: Seq<Seq<char>>, i: int, g: GlobalsView) -> GlobalsView {
    let w = words[i];
    if w == "-CC"@ {
        GlobalsView { control: 2, ..g }
    } else if w == "-C"@ {
        GlobalsView { control: 1, ..g }
    } else if w == "-L"@ && i + 1 < words.len() {
        GlobalsView { socket: Some(words[i + 1]), ..g }
    } else if w == "-f"@ && i + 1 < words.len() {
        GlobalsView { config: Some(words[i + 1]), ..g }
    } else {
        g
    }
}

/// The flags once all words from position `i` up to the subcommand were read.
pub open spec fn globals(words: Seq<Seq<char>>, i: int, g: GlobalsView) -> GlobalsView
    decreases words.len() - i,
{
    if i < 0 || i >= words.len() || global_width(words, i) == 0 {
        g
    } else {
        globals(words, i + global_width(words, i), with_global(words, i, g))
    }
}

/// Where the subcommand stands, from position `i` on.
pub open spec fn subcommand_at(words: Seq<Seq<char>>, i: int) -> int
    decreases words.len() - i,
{
    if i < 0 || i >= words.len() || global_width(words, i) == 0 {
        i
    } else {
        subcommand_at(words, i + global_width(words, i))
    }
}

proof fn lemma_flag_words()
    ensures
        dashed("-CC"@),
        dashed("-C"@),
        dashed("-L"@),
        dashed("-f"@),
        dashed("-S"@),
        dashed("-t"@),
        "-CC"@ != "-L"@,
        "-CC"@ != "-f"@,
        "-CC"@ != "-S"@,
        "-CC"@ != "-t"@,
        "-C"@ != "-L"@,
        "-C"@ != "-f"@,
        "-C"@ != "-S"@,
        "-C"@ != "-t"@,
{
    reveal_strlit("-CC");
    reveal_strlit("-C");
    reveal_strlit("-L");
    reveal_strlit("-f");
    reveal_strlit("-S");
    reveal_strlit("-t");
    assert("-CC"@.len() == 3 && "-L"@.len() == 2 && "-f"@.len() == 2 && "-S"@.len() == 2
        && "-t"@.len() == 2 && "-C"@.len() == 2);
    assert("-C"@[1] == 'C' && "-L"@[1] == 'L' && "-f"@[1] == 'f' && "-S"@[1] == 'S' && "-t"@[1]
        == 't');
}

/// Reads the flags before the subcommand. The first word is the program's name.
pub fn global_flags(args: &Vec<String>) -> (r: GlobalFlags)
    ensures
        r@ == globals(texts(args@), 1, no_globals()),
{
    let ghost t = texts(args@);
    let mut g = GlobalFlags { socket: None, config: None, control: 0 };
    let mut i: usize = 1;
    proof {
        lemma_flag_words();
    }
    while i < args.len()
        invariant_except_break
            t == texts(args@),
            dashed("-CC"@),
            dashed("-C"@),
            1 <= i,
            globals(t, i as int, g@) == globals(t, 1, no_globals()),
        ensures
            g@ == globals(t, 1, no_globals()),
        decreases args.len() - i,
    {
        proof {
            lemma_flag_words();
        }
        let ghost before = g@;
        let ghost at = i as int;
        let w = args[i].as_str();
        let has_next: bool = i + 1 < args.len();
        assert(w@ == t[at]);
        if same(w, "-CC") {
            g.control = 2;
            i += 1;
        } else if same(w, "-C") {
            g.control = 1;
            i += 1;
        } else if same(w, "-L") && has_next {
            g.socket = Some(args[i + 1].clone());
            i += 2;
        } else if same(w, "-f") && has_next {
            g.config = Some(args[i + 1].clone());
            i += 2;
        } else if (same(w, "-S") || same(w, "-t")) && has_next {
            i += 2;
        } else if is_dashed(w) {
            i += 1;
        } else {
            break;
        }
        assert(g@ == with_global(t, at, before));
    }
    g
}

proof fn lemma_globals_prefix(a: Seq<Seq<char>>, b: Seq<Seq<char>>, i: int, g: GlobalsView)
    requires
        0 <= i,
        subcommand_at(a, i) < a.len(),
        subcommand_at(a, i) < b.len(),
        forall|j: int| 0 <= j <= subcommand_at(a, i) ==> a[j] == b[j],
    ensures
        globals(a, i, g) == globals(b, i, g),
        subcommand_at(a, i) == subcommand_at(b, i),
        i <= subcommand_at(a, i),
    decreases a.len() - i,
{
    if i < a.len() && global_width(a, i) != 0 {
        let n = i + global_width(a, i);
        lemma_subcommand_ahead(a, n);
        lemma_globals_prefix(a, b, n, with_global(a, i, g));
        assert(global_width(b, i) == global_width(a, i));
        assert(with_global(b, i, g) == with_global(a, i, g));
    } else if i < a.len() {
        lemma_flag_words();
        assert(global_width(b, i) == 0);
    }
}

proof fn lemma_subcommand_ahead(a: Seq<Seq<char>>, i: int)
    ensures
        subcommand_at(a, i) >= i,
    decreases a.len() - i,
{
    if 0 <= i < a.len() && global_width(a, i) != 0 {
        lemma_subcommand_ahead(a, i + global_width(a, i));
    }
}

/// A flag behind the subcommand is never a global one: two command lines that
/// agree up to the subcommand have the same global flags.
pub proof fn globals_end_at_subcommand(a: Seq<Seq<char>>, b: Seq<Seq<char>>)
    requires
        subcommand_at(a, 1) < a.len(),
        subcommand_at(a, 1) < b.len(),
        forall|j: int| 0 <= j <= subcommand_at(a, 1) ==> a[j] == b[j],
    ensures
        globals(a, 1, no_globals()) == globals(b, 1, no_globals()),
{
    lemma_globals_prefix(a, b, 1, no_globals());
}

/// Whether a word asks for help or the version and so stands for a subcommand.
pub open spec fn is_own_command(w: Seq<char>) -> bool {
    w == "-h"@ || w == "--help"@ || w == "-V"@ || w == "-v"@ || w == "--version"@
}

/// Whether a word is the subcommand that detaches clients. Its target is a client, which the
/// subcommand itself reads.
pub open spec fn names_detach(w: Seq<char>) -> bool {
    w == "detach-client"@ || w == "detach"@
}

/// The words behind the subcommand, from position `i` on: every target with its flag is left out,
/// unless the subcommand keeps its target.
pub open spec fn words_behind(words: Seq<Seq<char>>, i: int, keeps: bool) -> Seq<Seq<char>>
    decreases words.len() - i,
{
    if i < 0 || i >= words.len() {
        Seq::empty()
    } else if !keeps && words[i] == "-t"@ && i + 1 < words.len() {
        words_behind(words, i + 2, keeps)
    } else {
        seq![words[i]] + words_behind(words, i + 1, keeps)
    }
}

/// The subcommand and its words, from position `i` on: global flags before it are
/// left out.
pub open spec fn command_words(words: Seq<Seq<char>>, i: int) -> Seq<Seq<char>>
    decreases words.len() - i,
{
    if i < 0 || i >= words.len() {
        Seq::empty()
    } else if (words[i] == "-t"@ || words[i] == "-L"@ || words[i] == "-f"@ || words[i] == "-S"@) && i
        + 1 < words.len() {
        command_words(words, i + 2)
    } else if dashed(words[i]) && !is_own_command(words[i]) {
        command_words(words, i + 1)
    } else {
        seq![words[i]] + words_behind(words, i + 1, names_detach(words[i]))
    }
}

/// The words that are still to come.
spec fn words_ahead(words: Seq<Seq<char>>, i: int, found: bool, keeps: bool) -> Seq<Seq<char>> {
    if found {
        words_behind(words, i, keeps)
    } else {
        command_words(words, i)
    }
}

/// The subcommand and its words. The first word of the command line is the
/// program's name.
pub fn command_args(args: &Vec<String>) -> (r: Vec<String>)
    ensures
        texts(r@) == command_words(texts(args@), 1),
{
    let ghost t = texts(args@);
    let mut r: Vec<String> = Vec::new();
    let mut i: usize = 1;
    let mut found: bool = false;
    let mut keeps: bool = false;
    assert(texts(r@) + command_words(t, 1) =~= command_words(t, 1));
    while i < args.len()
        invariant
            1 <= i,
            t == texts(args@),
            texts(r@) + words_ahead(t, i as int, found, keeps) == command_words(t, 1),
        decreases args.len() - i,
    {
        let w = args[i].as_str();
        let has_next: bool = i + 1 < args.len();
        let ghost before = texts(r@);
        let ghost at = i as int;
        let ghost ahead = words_ahead(t, at, found, keeps);
        assert(w@ == t[at]);
        if found {
            if !keeps && same(w, "-t") && has_next {
                i += 2;
                continue;
            }
        } else {
            if (same(w, "-t") || same(w, "-L") || same(w, "-f") || same(w, "-S")) && has_next {
                i += 2;
                continue;
            }
            let own: bool = same(w, "-h") || same(w, "--help") || same(w, "-V") || same(w, "-v")
                || same(w, "--version");
            if is_dashed(w) && !own {
                i += 1;
                continue;
            }
            found = true;
            keeps = same(w, "detach-client") || same(w, "detach");
        }
        r.push(args[i].clone());
        i += 1;
        proof {
            assert(texts(r@) =~= before.push(t[at]));
            assert(ahead == seq![t[at]] + words_behind(t, at + 1, keeps));
            assert(before.push(t[at]) + words_behind(t, at + 1, keeps) =~= before + ahead);
        }
    }
    assert(texts(r@) =~= command_words(t, 1));
    r
}

proof fn lemma_target_is_left_out(words: Seq<Seq<char>>, i: int, j: int)
    requires
        0 <= i,
        0 <= j < words_behind(words, i, false).len(),
        words_behind(words, i, false)[j] == "-t"@,
    ensures
        j == words_behind(words, i, false).len() - 1,
    decreases words.len() - i,
{
    if i < words.len() {
        if words[i] == "-t"@ && i + 1 < words.len() {
            lemma_target_is_left_out(words, i + 2, j);
        } else {
            let rest = words_behind(words, i + 1, false);
            assert(words_behind(words, i, false) == seq![words[i]] + rest);
            if j > 0 {
                assert(rest[j - 1] == words_behind(words, i, false)[j]);
                lemma_target_is_left_out(words, i + 1, j - 1);
            } else {
                assert(words_behind(words, i, false)[0] == words[i]);
                assert(rest.len() == 0);
            }
        }
    }
}

/// A target flag never reaches the subcommand with a value: where it does, it is
/// the last word. Only the subcommand that detaches clients has its target.
pub proof fn target_is_left_out(words: Seq<Seq<char>>, i: int, j: int)
    requires
        0 <= i,
        0 <= j < command_words(words, i).len(),
        command_words(words, i)[j] == "-t"@,
        !names_detach(command_words(words, i)[0]),
    ensures
        j == command_words(words, i).len() - 1,
    decreases words.len() - i,
{
    reveal_strlit("-t");
    let r = command_words(words, i);
    if i < words.len() {
        if (words[i] == "-t"@ || words[i] == "-L"@ || words[i] == "-f"@ || words[i] == "-S"@) && i + 1
            < words.len() {
            target_is_left_out(words, i + 2, j);
        } else if dashed(words[i]) && !is_own_command(words[i]) {
            target_is_left_out(words, i + 1, j);
        } else {
            let rest = words_behind(words, i + 1, names_detach(words[i]));
            assert(r == seq![words[i]] + rest);
            assert(r[0] == words[i]);
            if j > 0 {
                assert(rest[j - 1] == r[j]);
                lemma_target_is_left_out(words, i + 1, j - 1);
            } else {
                assert(dashed(words[i]));
                lemma_target_is_no_command();
            }
        }
    }
}

proof fn lemma_kept(words: Seq<Seq<char>>, i: int)
    requires
        0 <= i <= words.len(),
    ensures
        words_behind(words, i, true) == words.skip(i),
    decreases words.len() - i,
{
    if i < words.len() {
        lemma_kept(words, i + 1);
        assert(words_behind(words, i, true) =~= words.skip(i));
    } else {
        assert(words_behind(words, i, true) =~= words.skip(i));
    }
}

/// The subcommand that detaches clients has its words as they stand on the command line.
pub proof fn detach_has_its_words(words: Seq<Seq<char>>, i: int)
    requires
        0 <= i < words.len(),
        names_detach(words[i]),
    ensures
        command_words(words, i) == words.skip(i),
{
    lemma_detach_is_no_flag();
    lemma_kept(words, i + 1);
    assert(command_words(words, i) =~= words.skip(i));
}

proof fn lemma_detach_is_no_flag()
    ensures
        !dashed("detach-client"@),
        !dashed("detach"@),
        dashed("-t"@),
        dashed("-L"@),
        dashed("-f"@),
        dashed("-S"@),
{
    reveal_strlit("detach-client");
    reveal_strlit("detach");
    reveal_strlit("-t");
    reveal_strlit("-L");
    reveal_strlit("-f");
    reveal_strlit("-S");
}

proof fn lemma_target_is_no_command()
    ensures
        !is_own_command("-t"@),
{
    reveal_strlit("-t");
    reveal_strlit("-h");
    reveal_strlit("--help");
    reveal_strlit("-V");
    reveal_strlit("-v");
    reveal_strlit("--version");
    assert("-t"@[1] == 't');
    assert("-h"@[1] == 'h' && "--help"@[1] == '-' && "-V"@[1] == 'V' && "-v"@[1] == 'v'
        && "--version"@[1] == '-');
}

/// The word behind the first `flag`, from position `i` on.
pub open spec fn first_value(words: Seq<Seq<char>>, flag: Seq<char>, i: int) -> Option<Seq<char>>
    decreases words.len() - i,
{
    if i < 0 || i >= words.len() {
        None
    } else if words[i] == flag {
        if i + 1 < words.len() {
            Some(words[i + 1])
        } else {
            None
        }
    } else {
        first_value(words, flag, i + 1)
    }
}

/// The word behind the first `flag`.
pub fn value_after(words: &Vec<String>, flag: &str) -> (r: Option<String>)
    ensures
        opt_text(r) == first_value(texts(words@), flag@, 0),
{
    let ghost t = texts(words@);
    let mut i: usize = 0;
    while i < words.len()
        invariant
            t == texts(words@),
            first_value(t, flag@, i as int) == first_value(t, flag@, 0),
        decreases words.len() - i,
    {
        assert(t[i as int] == words@[i as int]@);
        if same(words[i].as_str(), flag) {
            if i + 1 < words.len() {
                return Some(words[i + 1].clone());
            }
            return None;
        }
        i += 1;
    }
    None
}

/// Whether a word occurs.
pub fn has_word(words: &Vec<String>, w: &str) -> (r: bool)
    ensures
        r == texts(words@).contains(w@),
{
    let mut i: usize = 0;
    while i < words.len()
        invariant
            i <= words.len(),
            forall|j: int| 0 <= j < i ==> #[trigger] texts(words@)[j] != w@,
        decreases words.len() - i,
    {
        if same(words[i].as_str(), w) {
            assert(texts(words@)[i as int] == w@);
            return true;
        }
        i += 1;
    }
    false
}

/// The name of the files of a session: its own, behind that of its name space.
pub open spec fn file_base(socket: Option<Seq<char>>, session: Seq<char>) -> Seq<char> {
    match socket {
        Some(l) => l + "__"@ + session,
        None => session,
    }
}

/// The name of the files of a session.
pub fn port_file_base(socket: &Option<String>, session: &str) -> (r: String)
    ensures
        r@ == file_base(opt_text(*socket), session@),
{
    match socket {
        Some(l) => {
            let mut s: String = l.clone();
            s.append("__");
            s.append(session);
            s
        },
        None => session.to_owned(),
    }
}

/// The session that a target goes to, by the name of its files; none where the
/// target names no session, or where the command is to switch to it.
pub fn target_session(socket: &Option<String>, session: &Option<String>, args: &Vec<String>) -> (r:
    Option<String>)
    ensures
        opt_text(r) == (match opt_text(*session) {
            Some(s) => if texts(args@).contains("switch-client"@) || texts(args@).contains(
                "switchc"@,
            ) {
                None
            } else {
                Some(file_base(opt_text(*socket), s))
            },
            None => None,
        }),
{
    match session {
        Some(s) => {
            if has_word(args, "switch-client") || has_word(args, "switchc") {
                None
            } else {
                Some(port_file_base(socket, s.as_str()))
            }
        },
        None => None,
    }
}

/// The port in the value that a pane finds in its environment: the number between
/// the first two commas.
pub open spec fn tmux_port(value: Seq<char>) -> Option<nat> {
    match after_char(value, ',') {
        Some(rest) => number(trimmed(before_char(rest, ',')), 0xFFFF),
        None => None,
    }
}

/// Reads a port: a number, with white space around it or not.
pub fn parse_port(text: &str) -> (r: Option<u16>)
    ensures
        r matches Some(p) ==> number(trimmed(text@), 0xFFFF) == Some(p as nat),
        r is None ==> number(trimmed(text@), 0xFFFF) is None,
{
    let t = trim(text);
    match parse_number(t.as_str(), 0xFFFF) {
        Some(n) => {
            assert(n <= 0xFFFF);
            Some(n as u16)
        },
        None => None,
    }
}

/// The port in the value that a pane finds in its environment.
pub fn port_of_environment(value: &str) -> (r: Option<u16>)
    ensures
        r matches Some(p) ==> tmux_port(value@) == Some(p as nat),
        r is None ==> tmux_port(value@) is None,
{
    let (_, rest) = split_once(value, ',');
    match rest {
        Some(s) => {
            let (field, _) = split_once(s.as_str(), ',');
            parse_port(field.as_str())
        },
        None => None,
    }
}

/// A session's port file, as it was found on disk.
pub struct PortFile {
    /// The file's name without its ending.
    pub base: String,
    /// What the file holds, where it could be read.
    pub text: Option<String>,
    /// Whether the session only stands by.
    pub warm: bool,
}

/// The port in a port file.
pub open spec fn port_in(f: PortFile) -> Option<nat> {
    match f.text {
        Some(t) => number(trimmed(t@), 0xFFFF),
        None => None,
    }
}

/// The session, by its files' name, whose port this is: the first of the files from
/// position `i` on that holds it, unless that session only stands by.
pub open spec fn owner_of_port(files: Seq<PortFile>, port: nat, i: int) -> Option<Seq<char>>
    decreases files.len() - i,
{
    if i < 0 || i >= files.len() {
        None
    } else if port_in(files[i]) == Some(port) {
        if files[i].warm {
            None
        } else {
            Some(files[i].base@)
        }
    } else {
        owner_of_port(files, port, i + 1)
    }
}

/// The session whose port this is.
pub fn session_with_port(files: &Vec<PortFile>, port: u16) -> (r: Option<String>)
    ensures
        opt_text(r) == owner_of_port(files@, port as nat, 0),
{
    let mut i: usize = 0;
    while i < files.len()
        invariant
            owner_of_port(files@, port as nat, i as int) == owner_of_port(files@, port as nat, 0),
        decreases files.len() - i,
    {
        let found: Option<u16> = match &files[i].text {
            Some(t) => parse_port(t.as_str()),
            None => None,
        };
        if let Some(p) = found {
            if p == port {
                return if files[i].warm {
                    None
                } else {
                    Some(files[i].base.clone())
                };
            }
        }
        i += 1;
    }
    None
}

/// Whether a session must not be started here: this is a pane or a client of one
/// already, and nesting was not allowed.
pub fn nesting_refused(allow: &Option<String>, active: &Option<String>, session: &Option<String>) -> (r:
    bool)
    ensures
        r == (opt_text(*allow) != Some("1"@) && (opt_text(*active) == Some("1"@) || (opt_text(
            *session,
        ) matches Some(s) && s.len() > 0))),
{
    if is_one(allow) {
        return false;
    }
    if is_one(active) {
        return true;
    }
    match session {
        Some(s) => !s.as_str().is_empty(),
        None => false,
    }
}

fn is_one(v: &Option<String>) -> (r: bool)
    ensures
        r == (opt_text(*v) == Some("1"@)),
{
    match v {
        Some(s) => same(s.as_str(), "1"),
        None => false,
    }
}

} // verus!
