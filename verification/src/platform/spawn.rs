//! Starting a server process: the command line it gets and the order in which
//! creation is tried.

use vstd::prelude::*;
use crate::text::{chars_of, texts};
use crate::utf16::{encode, utf16};

verus! {

/// The process gets a console of its own.
pub const CREATE_NEW_CONSOLE: u32 = 0x00000010;

/// The process leads a group of its own.
pub const CREATE_NEW_PROCESS_GROUP: u32 = 0x00000200;

/// The process leaves the job of its parent.
pub const CREATE_BREAKAWAY_FROM_JOB: u32 = 0x01000000;

/// A helper process gets no console window.
pub const CREATE_NO_WINDOW: u32 = 0x08000000;

/// Whether an argument has to stand in quotes: it is empty or holds a blank, a tab,
/// a line feed, a vertical tab or a quote.
pub open spec fn needs_quoting(arg: Seq<char>) -> bool {
    arg.len() == 0 || exists|i: int| 0 <= i < arg.len() && breaks_argument(#[trigger] arg[i])
}

/// Whether a character keeps an argument from standing bare.
pub open spec fn breaks_argument(c: char) -> bool {
    c == ' ' || c == '\t' || c == '\n' || c == '\x0b' || c == '"'
}

/// Whether, from position `i` on, `arg` holds backslashes up to a quote or up to
/// its end, where the closing quote comes.
pub open spec fn meets_quote(arg: Seq<char>, i: int) -> bool
    decreases arg.len() - i,
{
    if i < 0 || i >= arg.len() {
        true
    } else if arg[i] == '\\' {
        meets_quote(arg, i + 1)
    } else {
        arg[i] == '"'
    }
}

/// How the character at position `i` is written between quotes: a quote gets a
/// backslash before it, and a backslash is doubled in a run that meets a quote.
pub open spec fn escaped_char(arg: Seq<char>, i: int) -> Seq<char> {
    if arg[i] == '"' {
        seq!['\\', '"']
    } else if arg[i] == '\\' && meets_quote(arg, i) {
        seq!['\\', '\\']
    } else {
        seq![arg[i]]
    }
}

/// The characters of `arg` from position `i` on, as written between quotes.
pub open spec fn escaped_from(arg: Seq<char>, i: int) -> Seq<char>
    decreases arg.len() - i,
{
    if i < 0 || i >= arg.len() {
        Seq::empty()
    } else {
        escaped_char(arg, i) + escaped_from(arg, i + 1)
    }
}

/// An argument as it is written on a command line.
pub open spec fn escaped(arg: Seq<char>) -> Seq<char> {
    if needs_quoting(arg) {
        seq!['"'] + escaped_from(arg, 0) + seq!['"']
    } else {
        arg
    }
}

/// The arguments, each after a blank.
pub open spec fn escaped_args(args: Seq<Seq<char>>) -> Seq<char>
    decreases args.len(),
{
    if args.len() == 0 {
        Seq::empty()
    } else {
        escaped_args(args.drop_last()) + seq![' '] + escaped(args.last())
    }
}

/// The command line of a program with its arguments.
pub open spec fn command_line(exe: Seq<char>, args: Seq<Seq<char>>) -> Seq<char> {
    seq!['"'] + exe + seq!['"'] + escaped_args(args)
}

spec fn backslashes(n: nat) -> Seq<char> {
    Seq::new(n, |i: int| '\\')
}

proof fn lemma_run(arg: Seq<char>, a: int, b: int)
    requires
        0 <= a <= b <= arg.len(),
        forall|j: int| a <= j < b ==> arg[j] == '\\',
    ensures
        meets_quote(arg, a) == meets_quote(arg, b),
        escaped_from(arg, a) == backslashes(
            if meets_quote(arg, b) {
                (2 * (b - a)) as nat
            } else {
                (b - a) as nat
            },
        ) + escaped_from(arg, b),
    decreases b - a,
{
    if a == b {
        assert(escaped_from(arg, a) =~= backslashes(0) + escaped_from(arg, b));
    } else {
        lemma_run(arg, a + 1, b);
        let k: int = if meets_quote(arg, b) { 2 } else { 1 };
        assert(escaped_char(arg, a) =~= backslashes(k as nat));
        let n = (k * (b - a - 1)) as nat;
        let m = (k * (b - a)) as nat;
        assert(backslashes(m) =~= backslashes(k as nat) + backslashes(n));
        assert(escaped_from(arg, a) =~= backslashes(m) + escaped_from(arg, b));
    }
}

fn push_backslashes(out: &mut String, n: usize)
    ensures
        final(out)@ == old(out)@ + backslashes(n as nat),
{
    let mut i: usize = 0;
    assert(out@ =~= old(out)@ + backslashes(0));
    while i < n
        invariant
            i <= n,
            out@ == old(out)@ + backslashes(i as nat),
        decreases n - i,
    {
        out.push('\\');
        assert(out@ =~= old(out)@ + backslashes((i + 1) as nat));
        i += 1;
    }
}

/// Writes an argument so that the receiver's command line splitting gives it
/// back: verbatim where that is enough, between quotes otherwise.
pub fn escape_arg_msvcrt(arg: &str) -> (out: String)
    ensures
        out@ == escaped(arg@),
{
    let cs = chars_of(arg);
    let mut quoting: bool = cs.len() == 0;
    let mut k: usize = 0;
    while k < cs.len()
        invariant
            k <= cs.len(),
            quoting == (cs.len() == 0 || exists|i: int|
                0 <= i < k && breaks_argument(#[trigger] cs@[i])),
        decreases cs.len() - k,
    {
        let c: char = cs[k];
        if c == ' ' || c == '\t' || c == '\n' || c == '\x0b' || c == '"' {
            quoting = true;
            assert(breaks_argument(cs@[k as int]));
        }
        k += 1;
    }
    if !quoting {
        return arg.to_owned();
    }
    let mut out = String::new();
    out.push('"');
    let mut pending: usize = 0;
    let mut i: usize = 0;
    let ghost whole = seq!['"'] + escaped_from(cs@, 0);
    assert(out@ + escaped_from(cs@, 0) =~= whole);
    while i < cs.len()
        invariant
            pending <= i <= cs.len(),
            forall|j: int| i - pending <= j < i ==> cs@[j] == '\\',
            out@ + escaped_from(cs@, i - pending) == whole,
        decreases cs.len() - i,
    {
        let c: char = cs[i];
        if c == '\\' {
            pending += 1;
        } else {
            let ghost before = out@;
            proof {
                lemma_run(cs@, i - pending, i as int);
            }
            push_backslashes(&mut out, pending);
            if c == '"' {
                push_backslashes(&mut out, pending);
                out.push('\\');
            }
            out.push(c);
            proof {
                let rest = escaped_from(cs@, i + 1);
                assert(escaped_from(cs@, i as int) == escaped_char(cs@, i as int) + rest);
                assert(out@ + rest =~= before + escaped_from(cs@, i - pending));
            }
            pending = 0;
        }
        i += 1;
    }
    let ghost before = out@;
    proof {
        lemma_run(cs@, i - pending, i as int);
    }
    push_backslashes(&mut out, pending);
    push_backslashes(&mut out, pending);
    assert(out@ =~= before + escaped_from(cs@, i - pending));
    out.push('"');
    assert(out@ =~= escaped(arg@));
    out
}

/// Whether backslashes, none or more, lead up to a quote.
pub open spec fn quote_follows(s: Seq<char>) -> bool
    decreases s.len(),
{
    if s.len() == 0 {
        false
    } else if s[0] == '\\' {
        quote_follows(s.skip(1))
    } else {
        s[0] == '"'
    }
}

/// How a receiver reads one argument, inside quotes or not: the argument and
/// what is left of the line. Of backslashes that lead up to a quote each pair
/// stands for one, and a last single one makes the quote an ordinary character;
/// other backslashes stand for themselves.
pub open spec fn read_arg(s: Seq<char>, quoted: bool) -> (Seq<char>, Seq<char>)
    decreases s.len(),
{
    if s.len() == 0 || (!quoted && is_blank(s[0])) {
        (Seq::empty(), s)
    } else if s.len() > 1 && s[0] == '\\' && quote_follows(s) {
        let (a, r) = read_arg(s.skip(2), quoted);
        (seq![s[1]] + a, r)
    } else if s[0] == '"' {
        if quoted && s.len() > 1 && s[1] == '"' {
            let (a, r) = read_arg(s.skip(2), quoted);
            (seq!['"'] + a, r)
        } else {
            read_arg(s.skip(1), !quoted)
        }
    } else {
        let (a, r) = read_arg(s.skip(1), quoted);
        (seq![s[0]] + a, r)
    }
}

/// Whether a character separates arguments on a command line.
pub open spec fn is_blank(c: char) -> bool {
    c == ' ' || c == '\t'
}

proof fn lemma_read_arg_shrinks(s: Seq<char>, quoted: bool)
    ensures
        read_arg(s, quoted).1.len() <= s.len(),
    decreases s.len(),
{
    if s.len() == 0 || (!quoted && is_blank(s[0])) {
    } else if s.len() > 1 && s[0] == '\\' && quote_follows(s) {
        assert(quote_follows(s.skip(1)));
        lemma_read_arg_shrinks(s.skip(2), quoted);
    } else if s[0] == '"' {
        if quoted && s.len() > 1 && s[1] == '"' {
            lemma_read_arg_shrinks(s.skip(2), quoted);
        } else {
            lemma_read_arg_shrinks(s.skip(1), !quoted);
        }
    } else {
        lemma_read_arg_shrinks(s.skip(1), quoted);
    }
}

proof fn lemma_read_arg_consumes(s: Seq<char>)
    requires
        s.len() > 0,
        !is_blank(s[0]),
    ensures
        read_arg(s, false).1.len() < s.len(),
{
    if s.len() > 1 && s[0] == '\\' && quote_follows(s) {
        assert(quote_follows(s.skip(1)));
        lemma_read_arg_shrinks(s.skip(2), false);
    } else if s[0] == '"' {
        lemma_read_arg_shrinks(s.skip(1), true);
    } else {
        lemma_read_arg_shrinks(s.skip(1), false);
    }
}

/// How a receiver splits the line after the program's name into arguments.
pub open spec fn read_args(s: Seq<char>) -> Seq<Seq<char>>
    decreases s.len(),
    via read_args_decreases
{
    if s.len() == 0 {
        Seq::empty()
    } else if is_blank(s[0]) {
        read_args(s.skip(1))
    } else {
        let (a, r) = read_arg(s, false);
        seq![a] + read_args(r)
    }
}

#[via_fn]
proof fn read_args_decreases(s: Seq<char>) {
    if s.len() > 0 && !is_blank(s[0]) {
        lemma_read_arg_consumes(s);
    }
}

proof fn lemma_meets_quote(arg: Seq<char>, i: int, rest: Seq<char>)
    requires
        0 <= i <= arg.len(),
    ensures
        quote_follows(escaped_from(arg, i) + seq!['"'] + rest) == meets_quote(arg, i),
    decreases arg.len() - i,
{
    let t = escaped_from(arg, i) + seq!['"'] + rest;
    if i == arg.len() {
        assert(t[0] == '"');
    } else {
        let tail = escaped_from(arg, i + 1) + seq!['"'] + rest;
        lemma_meets_quote(arg, i + 1, rest);
        if arg[i] == '"' {
            assert(t[0] == '\\' && t[1] == '"');
            assert(t.skip(1)[0] == '"');
            assert(quote_follows(t.skip(1)));
        } else if arg[i] == '\\' && meets_quote(arg, i) {
            assert(t =~= seq!['\\', '\\'] + tail);
            assert(t.skip(1).skip(1) =~= tail);
            assert(quote_follows(t.skip(1)) == quote_follows(tail));
        } else {
            assert(t =~= seq![arg[i]] + tail);
            assert(t.skip(1) =~= tail);
        }
    }
}

proof fn lemma_read_escaped(arg: Seq<char>, i: int, rest: Seq<char>)
    requires
        0 <= i <= arg.len(),
        rest.len() == 0 || rest[0] == ' ',
    ensures
        read_arg(escaped_from(arg, i) + seq!['"'] + rest, true) == (arg.skip(i), rest),
    decreases arg.len() - i,
{
    let t = escaped_from(arg, i) + seq!['"'] + rest;
    if i == arg.len() {
        assert(t =~= seq!['"'] + rest);
        assert(t.skip(1) =~= rest);
        assert(read_arg(rest, false) == (Seq::<char>::empty(), rest));
        assert(arg.skip(i) =~= Seq::<char>::empty());
    } else {
        let tail = escaped_from(arg, i + 1) + seq!['"'] + rest;
        lemma_read_escaped(arg, i + 1, rest);
        lemma_meets_quote(arg, i, rest);
        assert(arg.skip(i) =~= seq![arg[i]] + arg.skip(i + 1));
        if arg[i] == '"' {
            assert(t =~= seq!['\\', '"'] + tail);
            assert(t.skip(2) =~= tail);
        } else if arg[i] == '\\' && meets_quote(arg, i) {
            assert(t =~= seq!['\\', '\\'] + tail);
            assert(t.skip(2) =~= tail);
        } else {
            assert(t =~= seq![arg[i]] + tail);
            assert(t.skip(1) =~= tail);
        }
    }
}

proof fn lemma_no_quote_no_follow(s: Seq<char>, rest: Seq<char>)
    requires
        !s.contains('"'),
        rest.len() == 0 || rest[0] == ' ',
    ensures
        !quote_follows(s + rest),
    decreases s.len(),
{
    let t = s + rest;
    if s.len() == 0 {
        assert(t =~= rest);
    } else {
        assert(s.contains(s[0]));
        assert(t.skip(1) =~= s.skip(1) + rest);
        assert(forall|c: char| s.skip(1).contains(c) ==> s.contains(c)) by {
            assert forall|c: char| s.skip(1).contains(c) implies s.contains(c) by {
                let k = choose|k: int| 0 <= k < s.skip(1).len() && s.skip(1)[k] == c;
                assert(s[k + 1] == c);
            }
        }
        lemma_no_quote_no_follow(s.skip(1), rest);
    }
}

proof fn lemma_read_bare(arg: Seq<char>, rest: Seq<char>)
    requires
        forall|i: int| 0 <= i < arg.len() ==> !breaks_argument(#[trigger] arg[i]),
        rest.len() == 0 || rest[0] == ' ',
    ensures
        read_arg(arg + rest, false) == (arg, rest),
    decreases arg.len(),
{
    let t = arg + rest;
    if arg.len() == 0 {
        assert(t =~= rest);
    } else {
        assert(!breaks_argument(arg[0]));
        assert(t.skip(1) =~= arg.skip(1) + rest);
        assert forall|i: int| 0 <= i < arg.skip(1).len() implies !breaks_argument(
            #[trigger] arg.skip(1)[i],
        ) by {
            assert(arg.skip(1)[i] == arg[i + 1]);
        }
        lemma_read_bare(arg.skip(1), rest);
        assert(!arg.contains('"')) by {
            if arg.contains('"') {
                let k = choose|k: int| 0 <= k < arg.len() && arg[k] == '"';
                assert(breaks_argument(arg[k]));
            }
        }
        lemma_no_quote_no_follow(arg, rest);
        assert(arg =~= seq![arg[0]] + arg.skip(1));
    }
}

/// A receiver reads an escaped argument, at the end of the line or before a
/// blank, as exactly the argument that was escaped.
pub proof fn escaped_argument_reads_back(arg: Seq<char>, rest: Seq<char>)
    requires
        rest.len() == 0 || rest[0] == ' ',
    ensures
        read_arg(escaped(arg) + rest, false) == (arg, rest),
{
    if needs_quoting(arg) {
        let t = escaped(arg) + rest;
        assert(t =~= seq!['"'] + (escaped_from(arg, 0) + seq!['"'] + rest));
        assert(t.skip(1) =~= escaped_from(arg, 0) + seq!['"'] + rest);
        lemma_read_escaped(arg, 0, rest);
        assert(arg.skip(0) =~= arg);
    } else {
        lemma_read_bare(arg, rest);
    }
}

proof fn lemma_escaped_starts_word(arg: Seq<char>)
    ensures
        escaped(arg).len() > 0,
        !is_blank(escaped(arg)[0]),
{
    if !needs_quoting(arg) {
        assert(!breaks_argument(arg[0]));
    }
}

proof fn lemma_read_args_append(args: Seq<Seq<char>>, rest: Seq<char>)
    requires
        rest.len() == 0 || rest[0] == ' ',
    ensures
        read_args(escaped_args(args) + rest) == args + read_args(rest),
    decreases args.len(),
{
    if args.len() == 0 {
        assert(escaped_args(args) + rest =~= rest);
        assert(args + read_args(rest) =~= read_args(rest));
    } else {
        let last = args.last();
        let more = seq![' '] + escaped(last) + rest;
        assert(escaped_args(args) + rest =~= escaped_args(args.drop_last()) + more);
        lemma_read_args_append(args.drop_last(), more);
        let word = escaped(last) + rest;
        assert(more.skip(1) =~= word);
        lemma_escaped_starts_word(last);
        escaped_argument_reads_back(last, rest);
        assert(read_args(more) == read_args(word));
        assert(read_args(word) =~= seq![last] + read_args(rest));
        assert(args.drop_last() + read_args(more) =~= args + read_args(rest));
    }
}

/// What stands before the next quote, and what stands after it.
pub open spec fn up_to_quote(s: Seq<char>) -> (Seq<char>, Seq<char>)
    decreases s.len(),
{
    if s.len() == 0 {
        (Seq::empty(), s)
    } else if s[0] == '"' {
        (Seq::empty(), s.skip(1))
    } else {
        let (a, r) = up_to_quote(s.skip(1));
        (seq![s[0]] + a, r)
    }
}

/// How a receiver splits a command line whose program name stands in quotes:
/// the name, in which no character is special, and the arguments.
pub open spec fn read_command_line(s: Seq<char>) -> Seq<Seq<char>> {
    let (name, rest) = up_to_quote(s.skip(1));
    seq![name] + read_args(rest)
}

proof fn lemma_up_to_quote(name: Seq<char>, rest: Seq<char>)
    requires
        !name.contains('"'),
    ensures
        up_to_quote(name + seq!['"'] + rest) == (name, rest),
    decreases name.len(),
{
    let t = name + seq!['"'] + rest;
    if name.len() == 0 {
        assert(t.skip(1) =~= rest);
    } else {
        assert(name.contains(name[0]));
        assert(t.skip(1) =~= name.skip(1) + seq!['"'] + rest);
        assert(!name.skip(1).contains('"')) by {
            if name.skip(1).contains('"') {
                let k = choose|k: int| 0 <= k < name.skip(1).len() && name.skip(1)[k] == '"';
                assert(name[k + 1] == '"');
            }
        }
        lemma_up_to_quote(name.skip(1), rest);
        assert(name =~= seq![name[0]] + name.skip(1));
    }
}

/// A receiver splits the command line of a program, whose name holds no quote,
/// into exactly that name and the arguments that the line was built from.
pub proof fn command_line_reads_back(exe: Seq<char>, args: Seq<Seq<char>>)
    requires
        !exe.contains('"'),
    ensures
        read_command_line(command_line(exe, args)) == seq![exe] + args,
{
    assert(command_line(exe, args).skip(1) =~= exe + seq!['"'] + escaped_args(args));
    lemma_up_to_quote(exe, escaped_args(args));
    lemma_read_args_append(args, Seq::empty());
    assert(escaped_args(args) + Seq::<char>::empty() =~= escaped_args(args));
    assert(args + read_args(Seq::<char>::empty()) =~= args);
}

/// Everything that the creation of a server process is given.
pub struct ServerSpawn {
    /// The command line in UTF-16, with its closing zero.
    pub command_line: Vec<u16>,
    /// The creation flags of the first attempt.
    pub first_flags: u32,
    /// The creation flags of the second attempt.
    pub second_flags: u32,
}

/// The creation of a hidden server process: its command line, and the flags of
/// the first attempt, out of the parent's job, and of the second, inside it.
pub fn spawn_server_hidden(exe: &str, args: &Vec<String>) -> (s: ServerSpawn)
    ensures
        s.command_line@ == utf16(command_line(exe@, texts(args@))).push(0),
        s.first_flags == CREATE_NEW_CONSOLE | CREATE_NEW_PROCESS_GROUP | CREATE_BREAKAWAY_FROM_JOB,
        s.second_flags == CREATE_NEW_CONSOLE | CREATE_NEW_PROCESS_GROUP,
{
    let mut line = String::new();
    line.push('"');
    line.append(exe);
    line.push('"');
    let ghost head = seq!['"'] + exe@ + seq!['"'];
    assert(line@ =~= head + escaped_args(texts(args@).take(0)));
    let mut i: usize = 0;
    while i < args.len()
        invariant
            i <= args.len(),
            line@ == head + escaped_args(texts(args@).take(i as int)),
        decreases args.len() - i,
    {
        line.push(' ');
        let word = escape_arg_msvcrt(args[i].as_str());
        line.append(word.as_str());
        proof {
            let t = texts(args@);
            assert(t.take(i + 1).drop_last() =~= t.take(i as int));
            assert(line@ =~= head + escaped_args(t.take(i + 1)));
        }
        i += 1;
    }
    assert(texts(args@).take(args.len() as int) =~= texts(args@));
    let mut wide = encode(line.as_str());
    wide.push(0);
    let base: u32 = CREATE_NEW_CONSOLE | CREATE_NEW_PROCESS_GROUP;
    ServerSpawn {
        command_line: wide,
        first_flags: base | CREATE_BREAKAWAY_FROM_JOB,
        second_flags: base,
    }
}

/// What is done after an attempt to create the process.
#[derive(Clone, Copy, PartialEq, Eq, Structural, Debug)]
pub enum SpawnStep {
    /// Try again without leaving the parent's job.
    Retry,
    /// Close the handles of the process and its thread, and succeed.
    CloseHandles,
    /// Report the system's last error.
    Fail,
}

/// What follows an attempt: a failed first one is tried again.
pub fn after_attempt(first: bool, created: bool) -> (s: SpawnStep)
    ensures
        s == (if created {
            SpawnStep::CloseHandles
        } else if first {
            SpawnStep::Retry
        } else {
            SpawnStep::Fail
        }),
{
    if created {
        SpawnStep::CloseHandles
    } else if first {
        SpawnStep::Retry
    } else {
        SpawnStep::Fail
    }
}

} // verus!
