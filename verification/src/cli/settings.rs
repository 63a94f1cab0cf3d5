//! Settings of environment variables on a command line: a name, an equals sign and a value.

use vstd::prelude::*;
use crate::cli::new_session::NewSession;
use crate::cli::server_args::{each_flagged, server_line, words_at, words_up_to, ServerSetup};
use crate::text::{after_char, before_char, same, split_once, texts};

verus! {

/// What a setting says: the name before the first equals sign, which is not empty, and the value
/// behind it. None where it is faulty.
pub open spec fn setting(s: Seq<char>) -> Option<(Seq<char>, Seq<char>)> {
    if before_char(s, '=').len() == 0 {
        None
    } else {
        match after_char(s, '=') {
            Some(value) => Some((before_char(s, '='), value)),
            None => None,
        }
    }
}

/// Reads a setting. None where it is faulty.
pub fn parse_setting(s: &str) -> (r: Option<(String, String)>)
    ensures
        setting(s@) == (match r {
            Some((name, value)) => Some((name@, value@)),
            None => None,
        }),
{
    let (name, value) = split_once(s, '=');
    if name.as_str().is_empty() {
        return None;
    }
    match value {
        Some(v) => Some((name, v)),
        None => None,
    }
}

/// The first faulty one among settings.
pub open spec fn first_faulty(settings: Seq<Seq<char>>) -> Option<Seq<char>>
    decreases settings.len(),
{
    if settings.len() == 0 {
        None
    } else if first_faulty(settings.drop_last()) is Some {
        first_faulty(settings.drop_last())
    } else if setting(settings.last()) is None {
        Some(settings.last())
    } else {
        None
    }
}

/// What settings say, where none is faulty.
pub open spec fn all_settings(settings: Seq<Seq<char>>) -> Seq<(Seq<char>, Seq<char>)> {
    Seq::new(settings.len(), |i: int| setting(settings[i])->0)
}

/// The texts of names and values.
pub open spec fn pairs(v: Seq<(String, String)>) -> Seq<(Seq<char>, Seq<char>)> {
    Seq::new(v.len(), |i: int| (v[i].0@, v[i].1@))
}

/// The message for a faulty setting.
pub open spec fn faulty_message(s: Seq<char>) -> Seq<char> {
    "not a setting: "@ + s
}

proof fn lemma_faulty_stays(settings: Seq<Seq<char>>, n: int)
    requires
        0 <= n <= settings.len(),
        first_faulty(settings.take(n)) is Some,
    ensures
        first_faulty(settings) == first_faulty(settings.take(n)),
    decreases settings.len() - n,
{
    if n == settings.len() {
        assert(settings.take(n) =~= settings);
    } else {
        assert(settings.take(n + 1).drop_last() =~= settings.take(n));
        lemma_faulty_stays(settings, n + 1);
    }
}

/// Reads settings. Where one is faulty, nothing is taken, and the message names the first such.
pub fn parse_settings(settings: &Vec<String>) -> (r: Result<Vec<(String, String)>, String>)
    ensures
        match r {
            Result::Ok(v) => first_faulty(texts(settings@)) is None && pairs(v@) == all_settings(
                texts(settings@),
            ),
            Result::Err(message) => first_faulty(texts(settings@)) is Some && message@
                == faulty_message(first_faulty(texts(settings@))->0),
        },
{
    let ghost t = texts(settings@);
    let mut v: Vec<(String, String)> = Vec::new();
    let mut i: usize = 0;
    while i < settings.len()
        invariant
            i <= settings.len(),
            t == texts(settings@),
            first_faulty(t.take(i as int)) is None,
            pairs(v@) == all_settings(t.take(i as int)),
        decreases settings.len() - i,
    {
        proof {
            assert(t.take(i + 1).drop_last() =~= t.take(i as int));
            assert(t.take(i + 1).last() == settings@[i as int]@);
        }
        match parse_setting(settings[i].as_str()) {
            Some(p) => {
                let ghost before = v@;
                v.push(p);
                assert(pairs(v@) =~= pairs(before).push((p.0@, p.1@)));
                assert(all_settings(t.take(i + 1)) =~= all_settings(t.take(i as int)).push(
                    setting(t[i as int])->0,
                ));
            },
            None => {
                let mut message: String = "not a setting: ".to_owned();
                message.append(settings[i].as_str());
                proof {
                    lemma_faulty_stays(t, i + 1);
                }
                return Err(message);
            },
        }
        i += 1;
    }
    assert(t.take(i as int) =~= t);
    Ok(v)
}

/// Whether any setting of a new session is faulty: then no session is made.
pub fn has_faulty_setting(n: &NewSession) -> (r: bool)
    ensures
        r == (first_faulty(texts(n.env@)) is Some),
{
    parse_settings(&n.env).is_err()
}

/// The settings among the words of a server, from position `i` on: what stands behind each of
/// their flags, up to a double dash.
pub open spec fn setting_words(words: Seq<Seq<char>>, i: int) -> Seq<Seq<char>>
    decreases words.len() + 1 - i,
{
    if i < 0 || i >= words.len() || words[i] == "--"@ {
        Seq::empty()
    } else if words[i] == "-e"@ {
        seq![
            if i + 1 < words.len() {
                words[i + 1]
            } else {
                ""@
            },
        ] + setting_words(words, i + 2)
    } else {
        setting_words(words, i + 1)
    }
}

/// The settings among the words of a server.
pub fn server_settings(args: &Vec<String>) -> (r: Vec<String>)
    ensures
        texts(r@) == setting_words(texts(args@), 0),
{
    let ghost t = texts(args@);
    let mut r: Vec<String> = Vec::new();
    let mut i: usize = 0;
    assert(texts(r@) + setting_words(t, 0) =~= setting_words(t, 0));
    while i < args.len() && !same(args[i].as_str(), "--")
        invariant
            t == texts(args@),
            texts(r@) + setting_words(t, i as int) == setting_words(t, 0),
        decreases args.len() - i,
    {
        assert(t[i as int] == args@[i as int]@);
        if same(args[i].as_str(), "-e") {
            let ghost before = texts(r@);
            let ghost at = i as int;
            if i + 1 < args.len() {
                r.push(args[i + 1].clone());
                i += 2;
            } else {
                r.push("".to_owned());
                i += 1;
                assert(setting_words(t, at + 2) =~= setting_words(t, at + 1));
            }
            proof {
                let one = r@.last()@;
                assert(texts(r@) =~= before.push(one));
                assert(before.push(one) + setting_words(t, at + 2) =~= before + (seq![one]
                    + setting_words(t, at + 2)));
            }
        } else {
            i += 1;
        }
    }
    proof {
        if i < args.len() {
            assert(t[i as int] == args@[i as int]@);
        }
        assert(texts(r@) + setting_words(t, i as int) =~= texts(r@));
    }
    r
}

proof fn lemma_flagged(flag: Seq<char>, values: Seq<Seq<char>>, k: int)
    requires
        0 <= k < values.len(),
    ensures
        each_flagged(flag, values).len() == 2 * values.len(),
        each_flagged(flag, values)[2 * k] == flag,
        each_flagged(flag, values)[2 * k + 1] == values[k],
    decreases values.len(),
{
    let front = values.drop_last();
    if k < front.len() {
        lemma_flagged(flag, front, k);
    } else if front.len() > 0 {
        lemma_flagged(flag, front, 0);
    } else {
        assert(each_flagged(flag, front).len() == 0);
    }
}

proof fn lemma_settings_skip(a: Seq<Seq<char>>, b: Seq<Seq<char>>, i: int)
    requires
        0 <= i <= a.len(),
        forall|j: int| 0 <= j < a.len() ==> a[j] != "-e"@ && a[j] != "--"@,
    ensures
        setting_words(a + b, i) == setting_words(a + b, a.len() as int),
    decreases a.len() - i,
{
    if i < a.len() {
        assert((a + b)[i] == a[i]);
        lemma_settings_skip(a, b, i + 1);
    }
}

proof fn lemma_settings_read(a: Seq<Seq<char>>, env: Seq<Seq<char>>, tail: Seq<Seq<char>>, k: int)
    requires
        0 <= k <= env.len(),
        tail.len() > 0 ==> tail[0] == "--"@,
    ensures
        setting_words(a + each_flagged("-e"@, env) + tail, a.len() + 2 * k) == env.skip(k),
    decreases env.len() - k,
{
    let flagged = each_flagged("-e"@, env);
    let w = a + flagged + tail;
    reveal_strlit("-e");
    reveal_strlit("--");
    assert("-e"@[1] != "--"@[1]);
    if k < env.len() {
        lemma_flagged("-e"@, env, k);
        assert(w[a.len() + 2 * k] == flagged[2 * k]);
        assert(w[a.len() + 2 * k + 1] == flagged[2 * k + 1]);
        lemma_settings_read(a, env, tail, k + 1);
        assert(seq![env[k]] + env.skip(k + 1) =~= env.skip(k));
    } else {
        if env.len() > 0 {
            lemma_flagged("-e"@, env, 0);
        } else {
            assert(flagged.len() == 0);
        }
        if tail.len() > 0 {
            assert(w[a.len() + 2 * k] == tail[0]);
        }
        assert(env.skip(k) =~= Seq::empty());
        assert(setting_words(w, a.len() + 2 * k) =~= Seq::empty());
    }
}

/// A server reads the settings that it was set up with, as long as no word before them is
/// mistaken for their flag or for a double dash.
pub proof fn server_reads_its_settings(exe: Seq<char>, s: ServerSetup)
    requires
        forall|j: int|
            0 <= j < words_up_to(s, 8).len() + 1 ==> (#[trigger] (seq![exe] + words_up_to(s, 8))[j])
                != "-e"@ && (seq![exe] + words_up_to(s, 8))[j] != "--"@,
    ensures
        setting_words(server_line(exe, s), 0) == texts(s.env@),
{
    let a = seq![exe] + words_up_to(s, 8);
    let env = texts(s.env@);
    let tail = words_at(s, 9);
    reveal_with_fuel(words_up_to, 3);
    assert(server_line(exe, s) =~= a + each_flagged("-e"@, env) + tail);
    let b = each_flagged("-e"@, env) + tail;
    assert(a + each_flagged("-e"@, env) + tail =~= a + b);
    lemma_settings_skip(a, b, 0);
    lemma_settings_read(a, env, tail, 0);
    assert(env.skip(0) =~= env);
}

} // verus!
