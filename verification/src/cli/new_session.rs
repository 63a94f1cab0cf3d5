//! Starting a session: the options that ask for one, the words that a server
//! process is started with, and what the server reads out of them.

use vstd::prelude::*;
use crate::cli::words::{dashed, is_dashed, opt_text, trim_quotes, unquoted, words_from};
use crate::text::{
    char_at, chars_of, has_char, has_prefix, join, joined, number, parse_number, range_text, same,
    starts_with, texts,
};

verus! {

/// A letter of a group of flags, with its value where it takes one.
pub struct Letter {
    pub letter: char,
    pub value: Option<String>,
}

/// What a letter says.
pub struct LetterView {
    pub letter: char,
    pub value: Option<Seq<char>>,
}

impl View for Letter {
    type V = LetterView;

    open spec fn view(&self) -> LetterView {
        LetterView { letter: self.letter, value: opt_text(self.value) }
    }
}

/// What a sequence of letters says.
pub open spec fn letter_views(v: Seq<Letter>) -> Seq<LetterView> {
    Seq::new(v.len(), |i: int| v[i]@)
}

/// The letters that take a value.
pub open spec fn takes_value(c: char) -> bool {
    "snFcxyeft"@.contains(c)
}

/// The letters of the group at position `i`, from its character `k` on. The first
/// that takes a value has what is left of the word for it, or else the next word,
/// or nothing where there is none.
pub open spec fn group(words: Seq<Seq<char>>, i: int, k: int) -> Seq<LetterView>
    decreases words[i].len() - k,
{
    let w = words[i];
    if k < 0 || k >= w.len() {
        Seq::empty()
    } else if takes_value(w[k]) {
        seq![
            LetterView {
                letter: w[k],
                value: Some(
                    if k + 1 < w.len() {
                        w.skip(k + 1)
                    } else if i + 1 < words.len() {
                        words[i + 1]
                    } else {
                        Seq::empty()
                    },
                ),
            },
        ]
    } else {
        seq![LetterView { letter: w[k], value: None }] + group(words, i, k + 1)
    }
}

/// How many words the group takes up, from its character `k` on.
pub open spec fn group_width(words: Seq<Seq<char>>, i: int, k: int) -> int
    decreases words[i].len() - k,
{
    let w = words[i];
    if k < 0 || k >= w.len() {
        1
    } else if takes_value(w[k]) {
        if k + 1 < w.len() {
            1
        } else {
            2
        }
    } else {
        group_width(words, i, k + 1)
    }
}

proof fn lemma_group_width(words: Seq<Seq<char>>, i: int, k: int)
    ensures
        1 <= group_width(words, i, k) <= 2,
    decreases words[i].len() - k,
{
    let w = words[i];
    if 0 <= k < w.len() && !takes_value(w[k]) {
        lemma_group_width(words, i, k + 1);
    }
}

/// Whether a word is a dash alone or begins with two, which says nothing.
pub open spec fn is_void(w: Seq<char>) -> bool {
    w.len() == 1 || has_prefix(w, "--"@)
}

/// The letters of all groups from position `i` on, up to the arguments proper.
pub open spec fn letters(words: Seq<Seq<char>>, i: int) -> Seq<LetterView>
    decreases words.len() + 1 - i,
    via letters_decreases
{
    if i < 0 || i >= words.len() || words[i] == "--"@ || !dashed(words[i]) {
        Seq::empty()
    } else if is_void(words[i]) {
        letters(words, i + 1)
    } else {
        group(words, i, 1) + letters(words, i + group_width(words, i, 1))
    }
}

#[via_fn]
proof fn letters_decreases(words: Seq<Seq<char>>, i: int) {
    lemma_group_width(words, i, 1);
}

/// Where the groups end, from position `i` on: at a double dash, at the first
/// argument proper, or at the end.
pub open spec fn letters_end(words: Seq<Seq<char>>, i: int) -> int
    decreases words.len() + 1 - i,
    via letters_end_decreases
{
    if i < 0 || i >= words.len() {
        words.len() as int
    } else if words[i] == "--"@ || !dashed(words[i]) {
        i
    } else if is_void(words[i]) {
        letters_end(words, i + 1)
    } else {
        letters_end(words, i + group_width(words, i, 1))
    }
}

#[via_fn]
proof fn letters_end_decreases(words: Seq<Seq<char>>, i: int) {
    lemma_group_width(words, i, 1);
}

/// Whether a letter is among them.
pub open spec fn has_letter(t: Seq<LetterView>, c: char) -> bool {
    exists|i: int| 0 <= i < t.len() && (#[trigger] t[i]).letter == c
}

/// The last value of a letter.
pub open spec fn last_of_letter(t: Seq<LetterView>, c: char) -> Option<Seq<char>>
    decreases t.len(),
{
    if t.len() == 0 {
        None
    } else if t.last().letter == c && t.last().value is Some {
        t.last().value
    } else {
        last_of_letter(t.drop_last(), c)
    }
}

/// All values of a letter, in order.
pub open spec fn all_of_letter(t: Seq<LetterView>, c: char) -> Seq<Seq<char>>
    decreases t.len(),
{
    if t.len() == 0 {
        Seq::empty()
    } else if t.last().letter == c && t.last().value is Some {
        all_of_letter(t.drop_last(), c).push(t.last().value->0)
    } else {
        all_of_letter(t.drop_last(), c)
    }
}

/// A number up to that of 16 bits.
pub open spec fn small_number(s: Option<Seq<char>>) -> Option<nat> {
    match s {
        Some(t) => number(t, 0xFFFF),
        None => None,
    }
}

/// An optional text without the double quotes at its ends.
pub open spec fn opt_unquoted(s: Option<Seq<char>>) -> Option<Seq<char>> {
    match s {
        Some(t) => Some(unquoted(t)),
        None => None,
    }
}

/// The texts of an optional list.
pub open spec fn opt_texts(o: Option<Vec<String>>) -> Option<Seq<Seq<char>>> {
    match o {
        Some(v) => Some(texts(v@)),
        None => None,
    }
}

/// An optional number of 16 bits as a natural number.
pub open spec fn opt_nat(o: Option<u16>) -> Option<nat> {
    match o {
        Some(n) => Some(n as nat),
        None => None,
    }
}

/// What is asked of a new session.
pub struct NewSession {
    pub name: Option<String>,
    pub detached: bool,
    pub print_info: bool,
    pub format: Option<String>,
    pub window: Option<String>,
    pub dir: Option<String>,
    /// Attach where the session exists already.
    pub attach: bool,
    pub width: Option<u16>,
    pub height: Option<u16>,
    pub group: Option<String>,
    /// The settings of environment variables, as they were written.
    pub env: Vec<String>,
    /// A program with its arguments.
    pub raw: Option<Vec<String>>,
    /// A command for the shell.
    pub command: Option<String>,
}

fn letter_value(t: &Vec<Letter>, c: char) -> (r: Option<String>)
    ensures
        opt_text(r) == last_of_letter(letter_views(t@), c),
{
    let ghost v = letter_views(t@);
    let mut i: usize = t.len();
    assert(v.take(i as int) =~= v);
    while i > 0
        invariant
            i <= t.len(),
            v == letter_views(t@),
            last_of_letter(v.take(i as int), c) == last_of_letter(v, c),
        decreases i,
    {
        assert(v.take(i as int).drop_last() =~= v.take(i - 1));
        i -= 1;
        assert(v.take(i + 1).last() == t@[i as int]@);
        if t[i].letter == c {
            if let Some(s) = &t[i].value {
                return Some(s.clone());
            }
        }
    }
    None
}

fn letter_values(t: &Vec<Letter>, c: char) -> (r: Vec<String>)
    ensures
        texts(r@) == all_of_letter(letter_views(t@), c),
{
    let ghost v = letter_views(t@);
    let mut r: Vec<String> = Vec::new();
    let mut i: usize = 0;
    assert(texts(r@) =~= all_of_letter(v.take(0), c));
    while i < t.len()
        invariant
            i <= t.len(),
            v == letter_views(t@),
            texts(r@) == all_of_letter(v.take(i as int), c),
        decreases t.len() - i,
    {
        assert(v.take(i + 1).drop_last() =~= v.take(i as int));
        assert(v.take(i + 1).last() == t@[i as int]@);
        let ghost before = texts(r@);
        if t[i].letter == c {
            if let Some(s) = &t[i].value {
                r.push(s.clone());
                assert(texts(r@) =~= before.push(s@));
            }
        }
        i += 1;
    }
    assert(v.take(t.len() as int) =~= v);
    r
}

fn letter_given(t: &Vec<Letter>, c: char) -> (r: bool)
    ensures
        r == has_letter(letter_views(t@), c),
{
    let mut i: usize = 0;
    while i < t.len()
        invariant
            i <= t.len(),
            forall|j: int| 0 <= j < i ==> (#[trigger] letter_views(t@)[j]).letter != c,
        decreases t.len() - i,
    {
        if t[i].letter == c {
            assert(letter_views(t@)[i as int].letter == c);
            return true;
        }
        i += 1;
    }
    false
}

fn small(s: &Option<String>) -> (r: Option<u16>)
    ensures
        opt_nat(r) == small_number(opt_text(*s)),
{
    match s {
        Some(t) => match parse_number(t.as_str(), 0xFFFF) {
            Some(n) => Some(n as u16),
            None => None,
        },
        None => None,
    }
}

fn trim_opt(s: Option<String>) -> (r: Option<String>)
    ensures
        opt_text(r) == opt_unquoted(opt_text(s)),
{
    match s {
        Some(t) => Some(trim_quotes(t.as_str())),
        None => None,
    }
}

/// Reads the group at position `i`, and how many words it takes up.
fn read_group(words: &Vec<String>, i: usize) -> (r: (Vec<Letter>, usize))
    requires
        i < words.len(),
    ensures
        letter_views(r.0@) == group(texts(words@), i as int, 1),
        r.1 == group_width(texts(words@), i as int, 1),
{
    let ghost w = texts(words@);
    let mut t: Vec<Letter> = Vec::new();
    let cs = chars_of(words[i].as_str());
    assert(cs@ == w[i as int]);
    let mut k: usize = 1;
    assert(letter_views(t@) + group(w, i as int, 1) =~= group(w, i as int, 1));
    while k < cs.len()
        invariant
            1 <= k,
            i < words.len(),
            w == texts(words@),
            cs@ == w[i as int],
            letter_views(t@) + group(w, i as int, k as int) == group(w, i as int, 1),
            group_width(w, i as int, k as int) == group_width(w, i as int, 1),
        decreases cs.len() - k,
    {
        let c: char = char_at(&cs, k);
        let ghost before = letter_views(t@);
        let ghost at = k as int;
        if has_char("snFcxyeft", c) {
            let value: String = if k + 1 < cs.len() {
                let r = range_text(&cs, k + 1, cs.len());
                assert(r@ =~= cs@.skip(k + 1));
                r
            } else if i + 1 < words.len() {
                words[i + 1].clone()
            } else {
                String::new()
            };
            t.push(Letter { letter: c, value: Some(value) });
            assert(letter_views(t@) =~= before + group(w, i as int, at));
            let width: usize = if k + 1 < cs.len() { 1 } else { 2 };
            return (t, width);
        }
        t.push(Letter { letter: c, value: None });
        k += 1;
        proof {
            let last = t@.last()@;
            assert(letter_views(t@) =~= before.push(last));
            assert(group(w, i as int, at) == seq![last] + group(w, i as int, at + 1));
            assert(before.push(last) + group(w, i as int, at + 1) =~= before + (seq![last] + group(
                w,
                i as int,
                at + 1,
            )));
        }
    }
    assert(letter_views(t@) =~= letter_views(t@) + group(w, i as int, k as int));
    (t, 1)
}

/// Reads what is asked of a new session out of the words behind the command's
/// name. Letters can share a dash, and a value can stand right behind its letter.
pub fn parse_new_session(words: &Vec<String>) -> (r: NewSession)
    ensures
        ({
            let w = texts(words@);
            let t = letters(w, 1);
            let e = letters_end(w, 1);
            &&& opt_text(r.name) == last_of_letter(t, 's')
            &&& r.detached == has_letter(t, 'd')
            &&& r.print_info == has_letter(t, 'P')
            &&& r.attach == has_letter(t, 'A')
            &&& opt_text(r.format) == opt_unquoted(last_of_letter(t, 'F'))
            &&& opt_text(r.window) == last_of_letter(t, 'n')
            &&& opt_text(r.dir) == opt_unquoted(last_of_letter(t, 'c'))
            &&& opt_nat(r.width) == small_number(last_of_letter(t, 'x'))
            &&& opt_nat(r.height) == small_number(last_of_letter(t, 'y'))
            &&& opt_text(r.group) == last_of_letter(t, 't')
            &&& texts(r.env@) == all_of_letter(t, 'e')
            &&& opt_texts(r.raw) == (if e < w.len() && w[e] == "--"@ && e + 1 < w.len() {
                Some(w.skip(e + 1))
            } else {
                None
            })
            &&& opt_text(r.command) == (if e < w.len() && w[e] != "--"@ {
                Some(joined(w.skip(e), " "@))
            } else {
                None
            })
        }),
{
    let ghost w = texts(words@);
    let mut t: Vec<Letter> = Vec::new();
    let n: usize = words.len();
    let mut i: usize = 1;
    assert(letter_views(t@) + letters(w, 1) =~= letters(w, 1));
    while i < n && !same(words[i].as_str(), "--") && is_dashed(words[i].as_str())
        invariant
            1 <= i,
            n == words.len(),
            w == texts(words@),
            letter_views(t@) + letters(w, i as int) == letters(w, 1),
            letters_end(w, i as int) == letters_end(w, 1),
        decreases n - i,
    {
        let ghost before = letter_views(t@);
        let ghost at = i as int;
        let word = words[i].as_str();
        assert(word@ == w[at]);
        if word.unicode_len() == 1 || starts_with(word, "--") {
            i += 1;
        } else {
            let (mut more, width) = read_group(words, i);
            let ghost added = letter_views(more@);
            t.append(&mut more);
            assert(letter_views(t@) =~= before + added);
            proof {
                lemma_group_width(w, at, 1);
                assert(letters(w, at) == group(w, at, 1) + letters(w, at + width));
                assert(before + (group(w, at, 1) + letters(w, at + width)) =~= (before + group(
                    w,
                    at,
                    1,
                )) + letters(w, at + width));
            }
            if n - i < width {
                assert(letters(w, at + 2) =~= letters(w, at + 1));
                assert(letters_end(w, at + 2) == letters_end(w, at + 1));
                i = n;
            } else {
                i += width;
            }
        }
    }
    assert(letters(w, i as int) =~= Seq::<LetterView>::empty());
    assert(letter_views(t@) =~= letters(w, 1));
    let mut raw: Option<Vec<String>> = None;
    let mut command: Option<String> = None;
    if i < n {
        assert(w[i as int] == words@[i as int]@);
        if same(words[i].as_str(), "--") {
            if i + 1 < n {
                raw = Some(words_from(words, i + 1));
            }
        } else {
            let rest = words_from(words, i);
            command = Some(join(&rest, " "));
        }
    }
    NewSession {
        name: letter_value(&t, 's'),
        detached: letter_given(&t, 'd'),
        print_info: letter_given(&t, 'P'),
        format: trim_opt(letter_value(&t, 'F')),
        window: letter_value(&t, 'n'),
        dir: trim_opt(letter_value(&t, 'c')),
        attach: letter_given(&t, 'A'),
        width: small(&letter_value(&t, 'x')),
        height: small(&letter_value(&t, 'y')),
        group: letter_value(&t, 't'),
        env: letter_values(&t, 'e'),
        raw,
        command,
    }
}

} // verus!
