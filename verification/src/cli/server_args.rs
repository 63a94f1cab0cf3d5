//! The words that a server process is started with, and what the server reads out
//! of them.

use vstd::prelude::*;
use crate::cli::global::{first_value, value_after};
use crate::cli::words::{opt_text, words_from};
use crate::text::{decimal, decimal_reads_back, number, number_text, parse_number, same, texts};

verus! {

/// What a server is started with.
pub struct ServerSetup {
    pub name: String,
    /// The name space of its sessions.
    pub socket: Option<String>,
    /// A command for the shell of the first pane.
    pub command: Option<String>,
    pub dir: Option<String>,
    pub window: Option<String>,
    pub width: Option<u16>,
    pub height: Option<u16>,
    /// The session whose group it joins.
    pub group: Option<String>,
    /// Settings of environment variables, each a name, an equals sign and a value.
    pub env: Vec<String>,
    /// A program with its arguments for the first pane.
    pub raw: Option<Vec<String>>,
}

/// A flag with its value, if there is one.
pub open spec fn flag_words(flag: Seq<char>, value: Option<Seq<char>>) -> Seq<Seq<char>> {
    match value {
        Some(v) => seq![flag, v],
        None => Seq::empty(),
    }
}

/// The decimal notation of an optional number.
pub open spec fn opt_decimal(n: Option<u16>) -> Option<Seq<char>> {
    match n {
        Some(v) => Some(decimal(v as nat)),
        None => None,
    }
}

/// A flag before each of some values.
pub open spec fn each_flagged(flag: Seq<char>, values: Seq<Seq<char>>) -> Seq<Seq<char>>
    decreases values.len(),
{
    if values.len() == 0 {
        Seq::empty()
    } else {
        each_flagged(flag, values.drop_last()) + seq![flag, values.last()]
    }
}

/// The flags of a server, in the order in which they are written.
pub open spec fn flag_at(k: int) -> Seq<char> {
    if k == 0 {
        "-s"@
    } else if k == 1 {
        "-L"@
    } else if k == 2 {
        "-c"@
    } else if k == 3 {
        "-d"@
    } else if k == 4 {
        "-n"@
    } else if k == 5 {
        "-x"@
    } else if k == 6 {
        "-y"@
    } else if k == 7 {
        "-g"@
    } else if k == 8 {
        "-e"@
    } else {
        "--"@
    }
}

/// The words that a setup has for the flag at place `k`.
pub open spec fn words_at(s: ServerSetup, k: int) -> Seq<Seq<char>> {
    if k == 0 {
        seq!["server"@, "-s"@, s.name@]
    } else if k == 1 {
        flag_words("-L"@, opt_text(s.socket))
    } else if k == 2 {
        flag_words("-c"@, opt_text(s.command))
    } else if k == 3 {
        flag_words("-d"@, opt_text(s.dir))
    } else if k == 4 {
        flag_words("-n"@, opt_text(s.window))
    } else if k == 5 {
        flag_words("-x"@, opt_decimal(s.width))
    } else if k == 6 {
        flag_words("-y"@, opt_decimal(s.height))
    } else if k == 7 {
        flag_words("-g"@, opt_text(s.group))
    } else if k == 8 {
        each_flagged("-e"@, texts(s.env@))
    } else {
        match s.raw {
            Some(v) => seq!["--"@] + texts(v@),
            None => Seq::empty(),
        }
    }
}

/// The words of the first `n` flags.
pub open spec fn words_up_to(s: ServerSetup, n: int) -> Seq<Seq<char>>
    decreases n,
{
    if n <= 0 {
        Seq::empty()
    } else {
        words_up_to(s, n - 1) + words_at(s, n - 1)
    }
}

fn push_flag(v: Vec<String>, flag: &str, value: &Option<String>) -> (r: Vec<String>)
    ensures
        texts(r@) == texts(v@) + flag_words(flag@, opt_text(*value)),
{
    let mut v = v;
    let ghost before = texts(v@);
    if let Some(s) = value {
        v.push(flag.to_owned());
        v.push(s.clone());
    }
    assert(texts(v@) =~= before + flag_words(flag@, opt_text(*value)));
    v
}

fn number_opt(n: Option<u16>) -> (r: Option<String>)
    ensures
        opt_text(r) == opt_decimal(n),
{
    match n {
        Some(v) => Some(number_text(v as u64)),
        None => None,
    }
}

/// The words that a server process is started with.
pub fn server_args(s: &ServerSetup) -> (r: Vec<String>)
    ensures
        texts(r@) == words_up_to(*s, 10),
{
    let mut v: Vec<String> = Vec::new();
    v.push("server".to_owned());
    v.push("-s".to_owned());
    v.push(s.name.clone());
    proof {
        reveal_with_fuel(words_up_to, 11);
        assert(texts(v@) =~= words_up_to(*s, 1));
    }
    v = push_flag(v, "-L", &s.socket);
    v = push_flag(v, "-c", &s.command);
    v = push_flag(v, "-d", &s.dir);
    v = push_flag(v, "-n", &s.window);
    v = push_flag(v, "-x", &number_opt(s.width));
    v = push_flag(v, "-y", &number_opt(s.height));
    v = push_flag(v, "-g", &s.group);
    assert(texts(v@) =~= words_up_to(*s, 8));
    let ghost head = texts(v@);
    let ghost env = texts(s.env@);
    let mut i: usize = 0;
    assert(texts(v@) =~= head + each_flagged("-e"@, env.take(0)));
    while i < s.env.len()
        invariant
            i <= s.env.len(),
            env == texts(s.env@),
            texts(v@) == head + each_flagged("-e"@, env.take(i as int)),
        decreases s.env.len() - i,
    {
        let ghost before = texts(v@);
        v.push("-e".to_owned());
        v.push(s.env[i].clone());
        proof {
            assert(env.take(i + 1).drop_last() =~= env.take(i as int));
            assert(texts(v@) =~= before + seq!["-e"@, env[i as int]]);
            assert(texts(v@) =~= head + each_flagged("-e"@, env.take(i + 1)));
        }
        i += 1;
    }
    assert(env.take(s.env.len() as int) =~= env);
    let ghost before_raw = texts(v@);
    if let Some(raw) = &s.raw {
        v.push("--".to_owned());
        let mut k: usize = 0;
        assert(texts(v@) =~= before_raw + (seq!["--"@] + texts(raw@).take(0)));
        while k < raw.len()
            invariant
                k <= raw.len(),
                texts(v@) == before_raw + (seq!["--"@] + texts(raw@).take(k as int)),
            decreases raw.len() - k,
        {
            let ghost before = texts(v@);
            v.push(raw[k].clone());
            proof {
                assert(texts(v@) =~= before.push(raw@[k as int]@));
                assert(texts(v@) =~= before_raw + (seq!["--"@] + texts(raw@).take(k + 1)));
            }
            k += 1;
        }
        assert(texts(raw@).take(raw.len() as int) =~= texts(raw@));
    } else {
        assert(texts(v@) =~= before_raw + Seq::<Seq<char>>::empty());
    }
    v
}

/// What a server reads out of the words that it was started with.
pub struct ServerOptions {
    pub name: String,
    pub socket: Option<String>,
    pub command: Option<String>,
    pub dir: Option<String>,
    pub window: Option<String>,
    /// Width and height, where either was given.
    pub size: Option<(u16, u16)>,
    pub group: Option<String>,
    pub raw: Option<Vec<String>>,
}

/// The size that is begun with: what is not given of it is as in a common
/// terminal. None where nothing is given.
pub open spec fn initial_size(width: Option<nat>, height: Option<nat>) -> Option<(nat, nat)> {
    match (width, height) {
        (Some(w), Some(h)) => Some((w, h)),
        (Some(w), None) => Some((w, 24)),
        (None, Some(h)) => Some((80, h)),
        (None, None) => None,
    }
}

/// A number of 16 bits behind the first `flag`.
pub open spec fn flag_number(words: Seq<Seq<char>>, flag: Seq<char>) -> Option<nat> {
    match first_value(words, flag, 0) {
        Some(t) => number(t, 0xFFFF),
        None => None,
    }
}

/// What stands behind the first double dash, if anything does.
pub open spec fn after_double_dash(words: Seq<Seq<char>>, i: int) -> Option<Seq<Seq<char>>>
    decreases words.len() - i,
{
    if i < 0 || i + 1 >= words.len() {
        None
    } else if words[i] == "--"@ {
        Some(words.skip(i + 1))
    } else {
        after_double_dash(words, i + 1)
    }
}

fn number_after(words: &Vec<String>, flag: &str) -> (r: Option<u16>)
    ensures
        r matches Some(n) ==> flag_number(texts(words@), flag@) == Some(n as nat),
        r is None ==> flag_number(texts(words@), flag@) is None,
{
    match value_after(words, flag) {
        Some(t) => match parse_number(t.as_str(), 0xFFFF) {
            Some(n) => Some(n as u16),
            None => None,
        },
        None => None,
    }
}

/// Reads a server's options: each is the word behind the first occurrence of its
/// flag.
pub fn parse_server_args(args: &Vec<String>) -> (r: ServerOptions)
    ensures
        ({
            let w = texts(args@);
            &&& r.name@ == (match first_value(w, "-s"@, 0) {
                Some(n) => n,
                None => "default"@,
            })
            &&& opt_text(r.socket) == first_value(w, "-L"@, 0)
            &&& opt_text(r.command) == first_value(w, "-c"@, 0)
            &&& opt_text(r.dir) == first_value(w, "-d"@, 0)
            &&& opt_text(r.window) == first_value(w, "-n"@, 0)
            &&& opt_text(r.group) == first_value(w, "-g"@, 0)
            &&& match r.size {
                Some(s) => initial_size(flag_number(w, "-x"@), flag_number(w, "-y"@)) == Some(
                    (s.0 as nat, s.1 as nat),
                ),
                None => initial_size(flag_number(w, "-x"@), flag_number(w, "-y"@)) is None,
            }
            &&& match r.raw {
                Some(v) => after_double_dash(w, 0) == Some(texts(v@)),
                None => after_double_dash(w, 0) is None,
            }
        }),
{
    let name: String = match value_after(args, "-s") {
        Some(n) => n,
        None => "default".to_owned(),
    };
    let size: Option<(u16, u16)> = match (number_after(args, "-x"), number_after(args, "-y")) {
        (Some(w), Some(h)) => Some((w, h)),
        (Some(w), None) => Some((w, 24)),
        (None, Some(h)) => Some((80, h)),
        (None, None) => None,
    };
    let ghost t = texts(args@);
    let mut raw: Option<Vec<String>> = None;
    let mut i: usize = 0;
    while i < args.len() && !same(args[i].as_str(), "--")
        invariant
            i <= args.len(),
            t == texts(args@),
            after_double_dash(t, i as int) == after_double_dash(t, 0),
        decreases args.len() - i,
    {
        assert(t[i as int] == args@[i as int]@);
        i += 1;
    }
    if i < args.len() && i + 1 < args.len() {
        assert(t[i as int] == args@[i as int]@);
        raw = Some(words_from(args, i + 1));
    }
    ServerOptions {
        name,
        socket: value_after(args, "-L"),
        command: value_after(args, "-c"),
        dir: value_after(args, "-d"),
        window: value_after(args, "-n"),
        size,
        group: value_after(args, "-g"),
        raw,
    }
}

/// The whole command line of a server process.
pub open spec fn server_line(exe: Seq<char>, s: ServerSetup) -> Seq<Seq<char>> {
    seq![exe] + words_up_to(s, 10)
}

/// The words before the place of the flag at `k`, or all words where the setup has
/// no such flag.
pub open spec fn ahead_of(exe: Seq<char>, s: ServerSetup, k: int) -> Seq<Seq<char>> {
    seq![exe] + words_up_to(
        s,
        if words_at(s, k).len() > 0 {
            k
        } else {
            10
        },
    )
}

proof fn lemma_first_value_skips(a: Seq<Seq<char>>, b: Seq<Seq<char>>, flag: Seq<char>, i: int)
    requires
        0 <= i <= a.len(),
        forall|j: int| 0 <= j < a.len() ==> a[j] != flag,
    ensures
        first_value(a + b, flag, i) == first_value(a + b, flag, a.len() as int),
        after_double_dash(a + b, i) == after_double_dash(a + b, a.len() as int) || flag != "--"@,
    decreases a.len() - i,
{
    if i < a.len() {
        lemma_first_value_skips(a, b, flag, i + 1);
        assert((a + b)[i] == a[i]);
    }
}

proof fn lemma_first_value_none(a: Seq<Seq<char>>, flag: Seq<char>, i: int)
    requires
        0 <= i,
        forall|j: int| 0 <= j < a.len() ==> a[j] != flag,
    ensures
        first_value(a, flag, i) is None,
        flag == "--"@ ==> after_double_dash(a, i) is None,
    decreases a.len() - i,
{
    if i < a.len() {
        lemma_first_value_none(a, flag, i + 1);
    }
}

proof fn lemma_words_split(s: ServerSetup, k: int, n: int)
    requires
        0 <= k < n,
    ensures
        exists|rest: Seq<Seq<char>>|
            words_up_to(s, n) == words_up_to(s, k) + words_at(s, k) + rest,
    decreases n,
{
    if k == n - 1 {
        let rest = Seq::<Seq<char>>::empty();
        assert(words_up_to(s, n) =~= words_up_to(s, k) + words_at(s, k) + rest);
    } else {
        lemma_words_split(s, k, n - 1);
        let rest = choose|rest: Seq<Seq<char>>|
            words_up_to(s, n - 1) == words_up_to(s, k) + words_at(s, k) + rest;
        let more = rest + words_at(s, n - 1);
        assert(words_up_to(s, n) =~= words_up_to(s, k) + words_at(s, k) + more);
    }
}

proof fn lemma_flag_read_back(exe: Seq<char>, s: ServerSetup, k: int, value: Option<Seq<char>>)
    requires
        0 <= k < 10,
        words_at(s, k) == flag_words(flag_at(k), value),
        !ahead_of(exe, s, k).contains(flag_at(k)),
    ensures
        first_value(server_line(exe, s), flag_at(k), 0) == value,
{
    let line = server_line(exe, s);
    let flag = flag_at(k);
    let a = ahead_of(exe, s, k);
    assert forall|j: int| 0 <= j < a.len() implies a[j] != flag by {
        assert(a.contains(a[j]));
    }
    match value {
        Some(v) => {
            lemma_words_split(s, k, 10);
            let rest = choose|rest: Seq<Seq<char>>|
                words_up_to(s, 10) == words_up_to(s, k) + words_at(s, k) + rest;
            let b = seq![flag, v] + rest;
            assert(line =~= a + b);
            lemma_first_value_skips(a, b, flag, 0);
            assert((a + b)[a.len() as int] == flag);
            assert((a + b)[a.len() as int + 1] == v);
        },
        None => {
            lemma_first_value_none(line, flag, 0);
        },
    }
}

/// Whether no word is mistaken for a flag that stands further back or is not given
/// at all.
pub open spec fn unambiguous(exe: Seq<char>, s: ServerSetup) -> bool {
    &&& exe != "-s"@
    &&& forall|k: int|
        1 <= k < 10 && k != 8 ==> !(#[trigger] ahead_of(exe, s, k)).contains(flag_at(k))
}

/// A server reads out of its words exactly what it was set up with, as long as no
/// word is mistaken for a flag.
pub proof fn server_reads_its_setup(exe: Seq<char>, s: ServerSetup)
    requires
        unambiguous(exe, s),
    ensures
        ({
            let w = server_line(exe, s);
            &&& first_value(w, "-s"@, 0) == Some(s.name@)
            &&& first_value(w, "-L"@, 0) == opt_text(s.socket)
            &&& first_value(w, "-c"@, 0) == opt_text(s.command)
            &&& first_value(w, "-d"@, 0) == opt_text(s.dir)
            &&& first_value(w, "-n"@, 0) == opt_text(s.window)
            &&& first_value(w, "-g"@, 0) == opt_text(s.group)
            &&& flag_number(w, "-x"@) == (match s.width {
                Some(n) => Some(n as nat),
                None => None,
            })
            &&& flag_number(w, "-y"@) == (match s.height {
                Some(n) => Some(n as nat),
                None => None,
            })
            &&& after_double_dash(w, 0) == (match s.raw {
                Some(v) => if v@.len() > 0 {
                    Some(texts(v@))
                } else {
                    None
                },
                None => None,
            })
        }),
{
    let w = server_line(exe, s);
    assert(!ahead_of(exe, s, 1).contains("-L"@));
    lemma_flag_read_back(exe, s, 1, opt_text(s.socket));
    assert(!ahead_of(exe, s, 2).contains("-c"@));
    lemma_flag_read_back(exe, s, 2, opt_text(s.command));
    assert(!ahead_of(exe, s, 3).contains("-d"@));
    lemma_flag_read_back(exe, s, 3, opt_text(s.dir));
    assert(!ahead_of(exe, s, 4).contains("-n"@));
    lemma_flag_read_back(exe, s, 4, opt_text(s.window));
    assert(!ahead_of(exe, s, 5).contains("-x"@));
    lemma_flag_read_back(exe, s, 5, opt_decimal(s.width));
    assert(!ahead_of(exe, s, 6).contains("-y"@));
    lemma_flag_read_back(exe, s, 6, opt_decimal(s.height));
    assert(!ahead_of(exe, s, 7).contains("-g"@));
    lemma_flag_read_back(exe, s, 7, opt_text(s.group));
    if let Some(n) = s.width {
        decimal_reads_back(n as nat, 0xFFFF);
    }
    if let Some(n) = s.height {
        decimal_reads_back(n as nat, 0xFFFF);
    }
    // The name.
    lemma_words_split(s, 0, 10);
    let rest = choose|rest: Seq<Seq<char>>|
        words_up_to(s, 10) == words_up_to(s, 0) + words_at(s, 0) + rest;
    let a = seq![exe, "server"@];
    let b = seq!["-s"@, s.name@] + rest;
    assert(w =~= a + b);
    assert("server"@ != "-s"@) by {
        reveal_strlit("server");
        reveal_strlit("-s");
        assert("server"@.len() == 6 && "-s"@.len() == 2);
    }
    lemma_first_value_skips(a, b, "-s"@, 0);
    assert((a + b)[2] == "-s"@ && (a + b)[3] == s.name@);
    // The program behind a double dash.
    let d = ahead_of(exe, s, 9);
    assert(!d.contains(flag_at(9)));
    assert forall|j: int| 0 <= j < d.len() implies d[j] != "--"@ by {
        assert(d.contains(d[j]));
    }
    match s.raw {
        Some(v) => {
            let tail = seq!["--"@] + texts(v@);
            assert(w =~= d + tail) by {
                assert(words_up_to(s, 10) == words_up_to(s, 9) + words_at(s, 9));
            }
            lemma_first_value_skips(d, tail, "--"@, 0);
            assert((d + tail)[d.len() as int] == "--"@);
            assert((d + tail).skip(d.len() as int + 1) =~= texts(v@));
        },
        None => {
            lemma_first_value_none(w, "--"@, 0);
        },
    }
}

} // verus!
