//! Lines that go to a server, taken apart into words.

use vstd::prelude::*;
use crate::cli::words::{escaped_quotes, in_quotes, opt_text};
use crate::text::{
    after_char, before_char, char_at, chars_of, is_white, lemma_replaced_first, number, parse_number,
    replace, skip, split_once, texts, white,
};

verus! {

/// How far a line has been read.
pub struct Reading {
    /// The words that are complete.
    pub words: Seq<Seq<char>>,
    /// The word that is being read.
    pub word: Seq<char>,
    /// Whether there is such a word, though it may be empty.
    pub begun: bool,
    /// Whether it goes on up to a quote.
    pub quoted: bool,
}

/// Nothing read yet.
pub open spec fn unread() -> Reading {
    Reading { words: Seq::empty(), word: Seq::empty(), begun: false, quoted: false }
}

/// A word that is complete.
pub open spec fn completed(r: Reading) -> Seq<Seq<char>> {
    if r.begun {
        r.words.push(r.word)
    } else {
        r.words
    }
}

/// A reading that has gone on by one character.
pub open spec fn with_char(r: Reading, c: char) -> Reading {
    if c == '"' {
        Reading { begun: true, quoted: !r.quoted, ..r }
    } else if is_white(c) && !r.quoted {
        Reading { words: completed(r), word: Seq::empty(), begun: false, quoted: false }
    } else {
        Reading { word: r.word.push(c), begun: true, ..r }
    }
}

/// Whether a quote that belongs to the word stands at a position: behind a backslash, between
/// quotes.
pub open spec fn escapes_quote(s: Seq<char>, i: int, quoted: bool) -> bool {
    quoted && s[i] == '\\' && i + 1 < s.len() && s[i + 1] == '"'
}

/// The words of a line from position `i` on, where the line was read as far as `r`.
pub open spec fn words_after(s: Seq<char>, i: int, r: Reading) -> Seq<Seq<char>>
    decreases s.len() - i,
{
    if i < 0 || i >= s.len() {
        completed(r)
    } else if escapes_quote(s, i, r.quoted) {
        words_after(s, i + 2, Reading { word: r.word.push('"'), begun: true, ..r })
    } else {
        words_after(s, i + 1, with_char(r, s[i]))
    }
}

/// The words of a line: they stand apart by white space, and quotes hold a word together.
pub open spec fn line_words_of(s: Seq<char>) -> Seq<Seq<char>> {
    words_after(s, 0, unread())
}

/// Takes a line apart into words.
pub fn line_words(line: &str) -> (r: Vec<String>)
    ensures
        texts(r@) == line_words_of(line@),
{
    let v = chars_of(line);
    let mut words: Vec<String> = Vec::new();
    let mut word = String::new();
    let mut begun: bool = false;
    let mut quoted: bool = false;
    let mut i: usize = 0;
    assert(texts(words@) =~= Seq::empty());
    while i < v.len()
        invariant
            i <= v.len(),
            v@ == line@,
            !begun ==> word@.len() == 0,
            words_after(
                line@,
                i as int,
                (Reading { words: texts(words@), word: word@, begun, quoted }),
            ) == line_words_of(line@),
        decreases v.len() - i,
    {
        let c: char = char_at(&v, i);
        let ghost before = Reading { words: texts(words@), word: word@, begun, quoted };
        if quoted && c == '\\' && i + 1 < v.len() && v[i + 1] == '"' {
            word.push('"');
            begun = true;
            i += 2;
        } else {
            if c == '"' {
                begun = true;
                quoted = !quoted;
            } else if white(c) && !quoted {
                if begun {
                    let ghost done = texts(words@);
                    let ghost text = word@;
                    words.push(word);
                    assert(texts(words@) =~= done.push(text));
                }
                word = String::new();
                begun = false;
                assert(word@ =~= Seq::empty());
            } else {
                word.push(c);
                begun = true;
            }
            assert(with_char(before, c) == (Reading {
                words: texts(words@),
                word: word@,
                begun,
                quoted,
            }));
            i += 1;
        }
    }
    if begun {
        let ghost done = texts(words@);
        let ghost text = word@;
        words.push(word);
        assert(texts(words@) =~= done.push(text));
    }
    words
}

proof fn lemma_reads_on(s: Seq<char>, line: Seq<char>, i: int, k: int, r: Reading)
    requires
        s.len() > 0 ==> s.last() != '\\',
        0 <= k <= s.len(),
        0 <= i,
        r.quoted,
        r.begun,
        line.skip(i) == escaped_quotes(s.skip(k)) + seq!['"'],
        i <= line.len(),
    ensures
        words_after(line, i, r) == r.words.push(r.word + s.skip(k)),
    decreases s.len() - k,
{
    let rest = s.skip(k);
    let tail = line.skip(i);
    if k == s.len() {
        assert(rest =~= Seq::empty());
        assert(escaped_quotes(rest) =~= Seq::empty());
        assert(tail =~= seq!['"']);
        assert(line.len() == i + 1);
        assert(line[i] == tail[0]);
        assert(r.word + rest =~= r.word);
        reveal_with_fuel(words_after, 2);
    } else {
        lemma_replaced_first(rest, '"', seq!['\\', '"']);
        assert(rest.skip(1) =~= s.skip(k + 1));
        let c = rest[0];
        assert(c == s[k]);
        if k + 1 < s.len() {
            lemma_replaced_first(s.skip(k + 1), '"', seq!['\\', '"']);
        }
        if c == '"' {
            assert(tail =~= seq!['\\', '"'] + (escaped_quotes(s.skip(k + 1)) + seq!['"']));
            assert(line[i] == tail[0] && line[i + 1] == tail[1]);
            assert(line.skip(i + 2) =~= tail.skip(2));
            assert(tail.skip(2) =~= escaped_quotes(s.skip(k + 1)) + seq!['"']);
            let next = Reading { word: r.word.push('"'), begun: true, ..r };
            lemma_reads_on(s, line, i + 2, k + 1, next);
            assert(next.word + s.skip(k + 1) =~= r.word + rest);
        } else {
            assert(tail =~= seq![c] + (escaped_quotes(s.skip(k + 1)) + seq!['"']));
            assert(line[i] == tail[0]);
            assert(line.skip(i + 1) =~= tail.skip(1));
            assert(tail.skip(1) =~= escaped_quotes(s.skip(k + 1)) + seq!['"']);
            if c == '\\' {
                assert(s.last() == s[s.len() - 1]);
                assert(k + 1 < s.len());
                assert(line[i + 1] == tail[1]);
                assert(tail[1] == escaped_quotes(s.skip(k + 1))[0]);
                assert(escaped_quotes(s.skip(k + 1))[0] != '"');
            }
            let next = Reading { word: r.word.push(c), begun: true, ..r };
            lemma_reads_on(s, line, i + 1, k + 1, next);
            assert(next.word + s.skip(k + 1) =~= r.word + rest);
        }
    }
}

/// A word between quotes reads back as it was, whatever white space and quotes it holds, as long
/// as it does not end in a backslash.
pub proof fn quoted_word_reads_back(s: Seq<char>)
    requires
        s.len() > 0 ==> s.last() != '\\',
    ensures
        line_words_of(in_quotes(s)) == seq![s],
{
    let line = in_quotes(s);
    let begun = Reading { words: Seq::empty(), word: Seq::empty(), begun: true, quoted: true };
    assert(s.skip(0) =~= s);
    assert(line.skip(1) =~= escaped_quotes(s) + seq!['"']);
    lemma_reads_on(s, line, 1, 0, begun);
    assert(with_char(unread(), '"') == begun);
    assert(line[0] == '"');
    assert(begun.words.push(begun.word + s.skip(0)) =~= seq![s]);
}

/// Whether a word stands on a line as it is: it is not empty, and it holds neither white space nor
/// quotes.
pub open spec fn is_plain(s: Seq<char>) -> bool {
    s.len() > 0 && forall|i: int|
        0 <= i < s.len() ==> !is_white(#[trigger] s[i]) && s[i] != '"' && s[i] != '\''
}

/// A word as it stands on a line.
pub open spec fn word_on_line(s: Seq<char>) -> Seq<char> {
    if is_plain(s) {
        s
    } else {
        in_quotes(s)
    }
}

/// Writes a word as it stands on a line.
pub fn quote_word(s: &str) -> (r: String)
    ensures
        r@ == word_on_line(s@),
{
    let v = chars_of(s);
    let mut plain: bool = v.len() > 0;
    let mut i: usize = 0;
    while i < v.len()
        invariant
            i <= v.len(),
            v@ == s@,
            plain == (v.len() > 0 && forall|j: int|
                0 <= j < i ==> !is_white(#[trigger] s@[j]) && s@[j] != '"' && s@[j] != '\''),
        decreases v.len() - i,
    {
        let c: char = char_at(&v, i);
        if white(c) || c == '"' || c == '\'' {
            plain = false;
        }
        i += 1;
    }
    if plain {
        s.to_owned()
    } else {
        let mut word = String::new();
        word.push('"');
        proof {
            reveal_strlit("\\\"");
            assert("\\\""@ =~= seq!['\\', '"']);
        }
        word.append(replace(s, '"', "\\\"").as_str());
        word.push('"');
        assert(word@ =~= in_quotes(s@));
        word
    }
}

proof fn lemma_plain_reads_on(s: Seq<char>, i: int, r: Reading)
    requires
        is_plain(s),
        0 <= i <= s.len(),
        !r.quoted,
        i > 0 ==> r.begun,
    ensures
        words_after(s, i, r) == r.words.push(r.word + s.skip(i)),
    decreases s.len() - i,
{
    if i == s.len() {
        assert(r.word + s.skip(i) =~= r.word);
    } else {
        let next = with_char(r, s[i]);
        lemma_plain_reads_on(s, i + 1, next);
        assert(next.word + s.skip(i + 1) =~= r.word + s.skip(i));
    }
}

/// A word that was written for a line reads back as it was, as long as it is plain or does not end
/// in a backslash.
pub proof fn written_word_reads_back(s: Seq<char>)
    requires
        is_plain(s) || s.len() == 0 || s.last() != '\\',
    ensures
        line_words_of(word_on_line(s)) == seq![s],
{
    if is_plain(s) {
        lemma_plain_reads_on(s, 0, unread());
        assert(unread().word + s.skip(0) =~= s);
        assert(unread().words.push(s) =~= seq![s]);
    } else {
        quoted_word_reads_back(s);
    }
}

/// The session that a target names, if it names one.
pub open spec fn session_in(target: Seq<char>) -> Option<Seq<char>> {
    let s = if after_char(target, ':') is Some {
        before_char(target, ':')
    } else {
        before_char(target, '.')
    };
    if s.len() == 0 || s[0] == '%' || s[0] == '@' {
        None
    } else if s[0] == '=' {
        Some(s.skip(1))
    } else {
        Some(s)
    }
}

/// The session that a target names, if it names one: what stands before the colon, or before the
/// dot where there is no colon, but for the number of a pane or of a window. An equals sign before the name is left out.
pub fn session_of_target(target: &str) -> (r: Option<String>)
    ensures
        opt_text(r) == session_in(target@),
{
    let (front, back) = split_once(target, ':');
    let session = if back.is_some() {
        front
    } else {
        split_once(target, '.').0
    };
    let v = chars_of(session.as_str());
    if v.len() == 0 || v[0] == '%' || v[0] == '@' {
        None
    } else if v[0] == '=' {
        Some(skip(session.as_str(), 1))
    } else {
        Some(session)
    }
}

/// The window that an address within a session names, if it names one: the number before the dot.
pub fn window_of_target(address: &str) -> (r: Option<u64>)
    ensures
        r == (match number(before_char(address@, '.'), u64::MAX as nat) {
            Some(n) => Some(n as u64),
            None => None,
        }),
{
    let window = split_once(address, '.').0;
    parse_number(window.as_str(), u64::MAX)
}

} // verus!
