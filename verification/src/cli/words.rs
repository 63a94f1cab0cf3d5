//! Words of a command line, taken apart into flags, their values and the rest.

use vstd::prelude::*;
use crate::text::{chars_of, has_char, range_text, replace, replaced, same, texts};

verus! {

/// A word, with the value that belongs to it where it is a flag that takes one.
pub struct Token {
    pub word: String,
    pub value: Option<String>,
}

/// What a token says.
pub struct TokenView {
    pub word: Seq<char>,
    pub value: Option<Seq<char>>,
}

/// The text of an optional string.
pub open spec fn opt_text(o: Option<String>) -> Option<Seq<char>> {
    match o {
        Some(s) => Some(s@),
        None => None,
    }
}

impl View for Token {
    type V = TokenView;

    open spec fn view(&self) -> TokenView {
        TokenView { word: self.word@, value: opt_text(self.value) }
    }
}

/// What a sequence of tokens says.
pub open spec fn token_views(v: Seq<Token>) -> Seq<TokenView> {
    Seq::new(v.len(), |i: int| v[i]@)
}

/// Whether a word is a dash and one of these letters.
pub open spec fn is_flag_of(w: Seq<char>, letters: Seq<char>) -> bool {
    w.len() == 2 && w[0] == '-' && letters.contains(w[1])
}

/// Whether a word begins with a dash.
pub open spec fn dashed(w: Seq<char>) -> bool {
    w.len() > 0 && w[0] == '-'
}

/// The tokens of the words from position `i` on: a flag that takes a value has the
/// next word for it, where there is one.
pub open spec fn tokens(valued: Seq<char>, words: Seq<Seq<char>>, i: int) -> Seq<TokenView>
    decreases words.len() - i,
{
    if i < 0 || i >= words.len() {
        Seq::empty()
    } else if is_flag_of(words[i], valued) && i + 1 < words.len() {
        seq![TokenView { word: words[i], value: Some(words[i + 1]) }] + tokens(valued, words, i + 2)
    } else {
        seq![TokenView { word: words[i], value: None }] + tokens(valued, words, i + 1)
    }
}

/// Where the arguments proper begin, among the words from position `i` on: behind
/// a double dash, or at the first word that is neither a flag nor a flag's value.
pub open spec fn rest_from(valued: Seq<char>, words: Seq<Seq<char>>, i: int) -> int
    decreases words.len() + 1 - i,
{
    if i < 0 || i >= words.len() {
        words.len() as int
    } else if words[i] == "--"@ {
        i + 1
    } else if !dashed(words[i]) {
        i
    } else if is_flag_of(words[i], valued) {
        rest_from(valued, words, i + 2)
    } else {
        rest_from(valued, words, i + 1)
    }
}

/// The flags before the arguments proper, with their values.
pub open spec fn leading_flags(valued: Seq<char>, words: Seq<Seq<char>>, i: int) -> Seq<TokenView>
    decreases words.len() + 1 - i,
{
    if i < 0 || i >= words.len() || words[i] == "--"@ || !dashed(words[i]) {
        Seq::empty()
    } else if is_flag_of(words[i], valued) {
        seq![
            TokenView {
                word: words[i],
                value: if i + 1 < words.len() {
                    Some(words[i + 1])
                } else {
                    None
                },
            },
        ] + leading_flags(valued, words, i + 2)
    } else {
        seq![TokenView { word: words[i], value: None }] + leading_flags(valued, words, i + 1)
    }
}

/// Whether a flag is among the tokens.
pub open spec fn has_flag(t: Seq<TokenView>, flag: Seq<char>) -> bool {
    exists|i: int| 0 <= i < t.len() && (#[trigger] t[i]).word == flag
}

/// The last value that a flag has among the tokens.
pub open spec fn last_value(t: Seq<TokenView>, flag: Seq<char>) -> Option<Seq<char>>
    decreases t.len(),
{
    if t.len() == 0 {
        None
    } else if t.last().word == flag && t.last().value is Some {
        t.last().value
    } else {
        last_value(t.drop_last(), flag)
    }
}

/// The plain words among the tokens: neither flags nor values.
pub open spec fn plain_words(t: Seq<TokenView>) -> Seq<Seq<char>>
    decreases t.len(),
{
    if t.len() == 0 {
        Seq::empty()
    } else if t.last().value is None && !dashed(t.last().word) {
        plain_words(t.drop_last()).push(t.last().word)
    } else {
        plain_words(t.drop_last())
    }
}

/// The last of some words.
pub open spec fn last_word(w: Seq<Seq<char>>) -> Option<Seq<char>> {
    if w.len() == 0 {
        None
    } else {
        Some(w.last())
    }
}

/// A text without the double quotes at either end.
pub open spec fn unquoted(s: Seq<char>) -> Seq<char>
    decreases s.len(),
{
    if s.len() > 0 && s[0] == '"' {
        unquoted(s.skip(1))
    } else if s.len() > 0 && s.last() == '"' {
        unquoted(s.drop_last())
    } else {
        s
    }
}

/// A text with a backslash before each double quote.
pub open spec fn escaped_quotes(s: Seq<char>) -> Seq<char> {
    replaced(s, '"', seq!['\\', '"'])
}

/// A text between double quotes, with a backslash before each that is part of it.
pub open spec fn in_quotes(s: Seq<char>) -> Seq<char> {
    seq!['"'] + escaped_quotes(s) + seq!['"']
}

/// Whether a word is a dash and one of these letters.
pub fn flag_of(w: &str, letters: &str) -> (r: bool)
    ensures
        r == is_flag_of(w@, letters@),
{
    let v = chars_of(w);
    v.len() == 2 && v[0] == '-' && has_char(letters, v[1])
}

/// Whether a word begins with a dash.
pub fn is_dashed(w: &str) -> (r: bool)
    ensures
        r == dashed(w@),
{
    let v = chars_of(w);
    v.len() > 0 && v[0] == '-'
}

/// The tokens of the words from position `from` on.
pub fn tokenize(valued: &str, words: &Vec<String>, from: usize) -> (r: Vec<Token>)
    ensures
        token_views(r@) == tokens(valued@, texts(words@), from as int),
{
    let ghost t = texts(words@);
    let mut r: Vec<Token> = Vec::new();
    let mut i: usize = from;
    assert(token_views(r@) + tokens(valued@, t, i as int) =~= tokens(valued@, t, from as int));
    while i < words.len()
        invariant
            t == texts(words@),
            token_views(r@) + tokens(valued@, t, i as int) == tokens(valued@, t, from as int),
        decreases words.len() - i,
    {
        let ghost before = token_views(r@);
        let ghost at = i as int;
        let word = words[i].clone();
        if flag_of(words[i].as_str(), valued) && i + 1 < words.len() {
            r.push(Token { word, value: Some(words[i + 1].clone()) });
            i += 2;
        } else {
            r.push(Token { word, value: None });
            i += 1;
        }
        proof {
            let last = r@.last()@;
            assert(token_views(r@) =~= before.push(last));
            assert(before.push(last) + tokens(valued@, t, i as int) =~= before + (seq![last]
                + tokens(valued@, t, i as int)));
            assert(tokens(valued@, t, at) == seq![last] + tokens(valued@, t, i as int));
        }
    }
    assert(token_views(r@) =~= tokens(valued@, t, from as int));
    r
}

/// The flags at the front, from position `from` on, and where the arguments proper
/// begin.
pub fn split_flags(valued: &str, words: &Vec<String>, from: usize) -> (r: (Vec<Token>, usize))
    ensures
        token_views(r.0@) == leading_flags(valued@, texts(words@), from as int),
        r.1 == rest_from(valued@, texts(words@), from as int),
        r.1 <= words.len(),
{
    let ghost t = texts(words@);
    let mut r: Vec<Token> = Vec::new();
    let mut i: usize = from;
    let n: usize = words.len();
    assert(token_views(r@) + leading_flags(valued@, t, i as int) =~= leading_flags(
        valued@,
        t,
        from as int,
    ));
    while i < n && !same(words[i].as_str(), "--") && is_dashed(words[i].as_str())
        invariant
            n == words.len(),
            t == texts(words@),
            token_views(r@) + leading_flags(valued@, t, i as int) == leading_flags(
                valued@,
                t,
                from as int,
            ),
            rest_from(valued@, t, i as int) == rest_from(valued@, t, from as int),
        decreases n - i,
    {
        let ghost before = token_views(r@);
        let ghost at = i as int;
        let word = words[i].clone();
        if flag_of(words[i].as_str(), valued) {
            if i + 1 < n {
                r.push(Token { word, value: Some(words[i + 1].clone()) });
                i += 2;
            } else {
                r.push(Token { word, value: None });
                assert(leading_flags(valued@, t, at + 2) =~= leading_flags(valued@, t, at + 1));
                assert(rest_from(valued@, t, at + 2) == rest_from(valued@, t, at + 1));
                i = n;
            }
        } else {
            r.push(Token { word, value: None });
            i += 1;
        }
        proof {
            let last = r@.last()@;
            assert(token_views(r@) =~= before.push(last));
            assert(before.push(last) + leading_flags(valued@, t, i as int) =~= before + (seq![last]
                + leading_flags(valued@, t, i as int)));
            assert(leading_flags(valued@, t, at) == seq![last] + leading_flags(
                valued@,
                t,
                i as int,
            ));
        }
    }
    assert(token_views(r@) =~= leading_flags(valued@, t, from as int));
    let rest: usize = if i >= n {
        n
    } else if same(words[i].as_str(), "--") {
        i + 1
    } else {
        i
    };
    (r, rest)
}

/// Whether a flag is among the tokens.
pub fn contains_flag(t: &Vec<Token>, flag: &str) -> (r: bool)
    ensures
        r == has_flag(token_views(t@), flag@),
{
    let mut i: usize = 0;
    while i < t.len()
        invariant
            i <= t.len(),
            forall|j: int| 0 <= j < i ==> (#[trigger] token_views(t@)[j]).word != flag@,
        decreases t.len() - i,
    {
        if same(t[i].word.as_str(), flag) {
            assert(token_views(t@)[i as int].word == flag@);
            return true;
        }
        i += 1;
    }
    false
}

/// The last value that a flag has among the tokens.
pub fn value_of(t: &Vec<Token>, flag: &str) -> (r: Option<String>)
    ensures
        opt_text(r) == last_value(token_views(t@), flag@),
{
    let ghost v = token_views(t@);
    let mut i: usize = t.len();
    assert(v.take(i as int) =~= v);
    while i > 0
        invariant
            i <= t.len(),
            v == token_views(t@),
            last_value(v.take(i as int), flag@) == last_value(v, flag@),
        decreases i,
    {
        assert(v.take(i as int).drop_last() =~= v.take(i - 1));
        i -= 1;
        assert(v.take(i + 1).last() == t@[i as int]@);
        if same(t[i].word.as_str(), flag) {
            if let Some(s) = &t[i].value {
                return Some(s.clone());
            }
        }
    }
    None
}

/// The plain words among the tokens.
pub fn plain_words_of(t: &Vec<Token>) -> (r: Vec<String>)
    ensures
        texts(r@) == plain_words(token_views(t@)),
{
    let ghost v = token_views(t@);
    let mut r: Vec<String> = Vec::new();
    let mut i: usize = 0;
    assert(texts(r@) =~= plain_words(v.take(0)));
    while i < t.len()
        invariant
            i <= t.len(),
            v == token_views(t@),
            texts(r@) == plain_words(v.take(i as int)),
        decreases t.len() - i,
    {
        assert(v.take(i + 1).drop_last() =~= v.take(i as int));
        assert(v.take(i + 1).last() == t@[i as int]@);
        let ghost before = texts(r@);
        if t[i].value.is_none() && !is_dashed(t[i].word.as_str()) {
            r.push(t[i].word.clone());
            assert(texts(r@) =~= before.push(t@[i as int].word@));
        }
        i += 1;
    }
    assert(v.take(t.len() as int) =~= v);
    r
}

/// The last of some words.
pub fn last_of(words: &Vec<String>) -> (r: Option<String>)
    ensures
        opt_text(r) == last_word(texts(words@)),
{
    if words.len() == 0 {
        None
    } else {
        Some(words[words.len() - 1].clone())
    }
}

/// A text without the double quotes at either end.
pub fn trim_quotes(s: &str) -> (r: String)
    ensures
        r@ == unquoted(s@),
{
    let v = chars_of(s);
    let mut from: usize = 0;
    assert(v@.subrange(0, v.len() as int) =~= v@);
    while from < v.len() && v[from] == '"'
        invariant
            from <= v.len(),
            unquoted(v@.subrange(from as int, v.len() as int)) == unquoted(v@),
        decreases v.len() - from,
    {
        assert(v@.subrange(from as int, v.len() as int).skip(1) =~= v@.subrange(
            from + 1,
            v.len() as int,
        ));
        from += 1;
    }
    let mut to: usize = v.len();
    while to > from && v[to - 1] == '"'
        invariant
            from <= to <= v.len(),
            from < v.len() ==> v@[from as int] != '"',
            unquoted(v@.subrange(from as int, to as int)) == unquoted(v@),
        decreases to,
    {
        assert(v@.subrange(from as int, to as int).drop_last() =~= v@.subrange(
            from as int,
            to - 1,
        ));
        to -= 1;
    }
    range_text(&v, from, to)
}

/// Appends a blank and a text between double quotes.
pub fn push_quoted(line: &mut String, s: &str)
    ensures
        final(line)@ == old(line)@ + seq![' '] + in_quotes(s@),
{
    line.push(' ');
    line.push('"');
    proof {
        reveal_strlit("\\\"");
        assert("\\\""@ =~= seq!['\\', '"']);
    }
    let e = replace(s, '"', "\\\"");
    line.append(e.as_str());
    line.push('"');
    assert(line@ =~= old(line)@ + seq![' '] + in_quotes(s@));
}

/// Appends a blank and a word.
pub fn push_word(line: &mut String, s: &str)
    ensures
        final(line)@ == old(line)@ + seq![' '] + s@,
{
    line.push(' ');
    line.append(s);
    assert(line@ =~= old(line)@ + seq![' '] + s@);
}

/// The words from position `from` on.
pub fn words_from(words: &Vec<String>, from: usize) -> (r: Vec<String>)
    requires
        from <= words.len(),
    ensures
        texts(r@) == texts(words@).skip(from as int),
{
    let mut r: Vec<String> = Vec::new();
    let mut i: usize = from;
    while i < words.len()
        invariant
            from <= i <= words.len(),
            texts(r@) == texts(words@).subrange(from as int, i as int),
        decreases words.len() - i,
    {
        let ghost before = texts(r@);
        r.push(words[i].clone());
        assert(texts(r@) =~= before.push(words@[i as int]@));
        assert(texts(r@) =~= texts(words@).subrange(from as int, i + 1));
        i += 1;
    }
    assert(texts(words@).subrange(from as int, words.len() as int) =~= texts(words@).skip(
        from as int,
    ));
    r
}

} // verus!
