//! Text as sequences of characters: the string operations that the rest of the
//! library is stated over.

use vstd::prelude::*;

verus! {

/// `String::push` appends the given character at the end of the string.
pub assume_specification[ String::push ](s: &mut String, c: char)
    ensures
        final(s)@ == old(s)@.push(c),
;

/// `==` on `str` holds exactly of strings with the same characters.
pub assume_specification[ <str as PartialEq>::eq ](a: &str, b: &str) -> (r: bool)
    ensures
        r == (a@ == b@),
;

/// The texts that a sequence of strings holds.
pub open spec fn texts(v: Seq<String>) -> Seq<Seq<char>> {
    Seq::new(v.len(), |i: int| v[i]@)
}

/// Whether `s` begins with `p`.
pub open spec fn has_prefix(s: Seq<char>, p: Seq<char>) -> bool {
    p.len() <= s.len() && s.take(p.len() as int) == p
}

/// Whether `s` ends with `p`.
pub open spec fn has_suffix(s: Seq<char>, p: Seq<char>) -> bool {
    p.len() <= s.len() && s.skip(s.len() - p.len()) == p
}

/// Whether `p` stands in `s` at position `i`.
pub open spec fn stands_at(s: Seq<char>, p: Seq<char>, i: int) -> bool {
    0 <= i && i + p.len() <= s.len() && s.subrange(i, i + p.len()) == p
}

/// Whether `p` stands anywhere in `s`.
pub open spec fn has_substring(s: Seq<char>, p: Seq<char>) -> bool {
    exists|i: int| stands_at(s, p, i)
}

/// The character of a decimal digit.
pub open spec fn digit_char(d: nat) -> char {
    (48 + d) as char
}

/// The decimal notation of `n`, without leading zeros.
pub open spec fn decimal(n: nat) -> Seq<char>
    decreases n,
{
    if n < 10 {
        seq![digit_char(n)]
    } else {
        decimal(n / 10).push(digit_char(n % 10))
    }
}

/// The decimal notation of a signed number.
pub open spec fn signed_decimal(n: int) -> Seq<char> {
    if n < 0 {
        seq!['-'] + decimal((-n) as nat)
    } else {
        decimal(n as nat)
    }
}

/// Whether `c` is one of the ten ASCII digits.
pub open spec fn is_digit(c: char) -> bool {
    '0' <= c && c <= '9'
}

/// Whether `s` consists of ASCII digits only.
pub open spec fn all_digits(s: Seq<char>) -> bool {
    forall|i: int| 0 <= i < s.len() ==> is_digit(#[trigger] s[i])
}

/// The number that a sequence of digits denotes.
pub open spec fn digits_value(s: Seq<char>) -> nat
    decreases s.len(),
{
    if s.len() == 0 {
        0
    } else {
        digits_value(s.drop_last()) * 10 + (s.last() as int - 48) as nat
    }
}

/// What follows an optional plus sign.
pub open spec fn after_plus(s: Seq<char>) -> Seq<char> {
    if s.len() > 0 && s[0] == '+' {
        s.skip(1)
    } else {
        s
    }
}

/// The unsigned number, no larger than `max`, that `s` denotes: an optional
/// plus sign and at least one digit.
pub open spec fn number(s: Seq<char>, max: nat) -> Option<nat> {
    let body = after_plus(s);
    if body.len() > 0 && all_digits(body) && digits_value(body) <= max {
        Some(digits_value(body))
    } else {
        None
    }
}

/// `parts` with `sep` between each two neighbours.
pub open spec fn joined(parts: Seq<Seq<char>>, sep: Seq<char>) -> Seq<char>
    decreases parts.len(),
{
    if parts.len() == 0 {
        Seq::empty()
    } else if parts.len() == 1 {
        parts[0]
    } else {
        joined(parts.drop_last(), sep) + sep + parts.last()
    }
}

/// `s` with every `c` replaced by `by`.
pub open spec fn replaced(s: Seq<char>, c: char, by: Seq<char>) -> Seq<char>
    decreases s.len(),
{
    if s.len() == 0 {
        Seq::empty()
    } else {
        replaced(s.drop_last(), c, by) + (if s.last() == c {
            by
        } else {
            seq![s.last()]
        })
    }
}

/// The decimal notation of a number reads back as that number.
pub proof fn lemma_decimal_digits(n: nat)
    ensures
        decimal(n).len() > 0,
        all_digits(decimal(n)),
        digits_value(decimal(n)) == n,
    decreases n,
{
    if n < 10 {
        let s = decimal(n);
        assert(s.drop_last() =~= Seq::<char>::empty());
        assert(digits_value(s.drop_last()) == 0);
    } else {
        lemma_decimal_digits(n / 10);
        let s = decimal(n);
        assert(s.drop_last() =~= decimal(n / 10));
    }
}

/// A number within the bound is read back from its decimal notation.
pub proof fn decimal_reads_back(n: nat, max: nat)
    requires
        n <= max,
    ensures
        number(decimal(n), max) == Some(n),
{
    lemma_decimal_digits(n);
    assert(is_digit(decimal(n)[0]));
}

/// An ASCII capital as the small letter, any other character as itself.
pub open spec fn lowered_ascii(c: char) -> char {
    if 'A' <= c && c <= 'Z' {
        (c as int + 32) as char
    } else {
        c
    }
}

/// An ASCII small letter as the capital, any other character as itself.
pub open spec fn uppered_ascii(c: char) -> char {
    if 'a' <= c && c <= 'z' {
        (c as int - 32) as char
    } else {
        c
    }
}

/// An ASCII capital as the small letter, any other character as itself.
pub fn lower_ascii(c: char) -> (r: char)
    ensures
        r == lowered_ascii(c),
{
    if 'A' <= c && c <= 'Z' {
        (c as u8 + 32) as char
    } else {
        c
    }
}

/// An ASCII small letter as the capital, any other character as itself.
pub fn upper_ascii(c: char) -> (r: char)
    ensures
        r == uppered_ascii(c),
{
    if 'a' <= c && c <= 'z' {
        (c as u8 - 32) as char
    } else {
        c
    }
}

/// Whether two strings hold the same text.
pub fn same(a: &str, b: &str) -> (r: bool)
    ensures
        r == (a@ == b@),
{
    *a == *b
}

/// The characters of a string.
pub fn chars_of(s: &str) -> (v: Vec<char>)
    ensures
        v@ == s@,
{
    let mut v: Vec<char> = Vec::new();
    for c in it: s.chars()
        invariant
            v@ == it.seq().take(it.index()),
    {
        v.push(c);
    }
    v
}

/// The character at position `i`.
pub fn char_at(v: &Vec<char>, i: usize) -> (c: char)
    requires
        i < v.len(),
    ensures
        c == v@[i as int],
{
    v[i]
}

/// Appends the characters `v[from..to]`.
pub fn push_range(s: &mut String, v: &Vec<char>, from: usize, to: usize)
    requires
        from <= to <= v.len(),
    ensures
        final(s)@ == old(s)@ + v@.subrange(from as int, to as int),
{
    let mut i: usize = from;
    while i < to
        invariant
            from <= i <= to <= v.len(),
            s@ == old(s)@ + v@.subrange(from as int, i as int),
        decreases to - i,
    {
        s.push(v[i]);
        i += 1;
    }
}

/// The string that holds the characters `v[from..to]`.
pub fn range_text(v: &Vec<char>, from: usize, to: usize) -> (s: String)
    requires
        from <= to <= v.len(),
    ensures
        s@ == v@.subrange(from as int, to as int),
{
    let mut s = String::new();
    push_range(&mut s, v, from, to);
    s
}

/// The string that holds the characters `v`.
pub fn text_of(v: &Vec<char>) -> (s: String)
    ensures
        s@ == v@,
{
    let s = range_text(v, 0, v.len());
    assert(v@.subrange(0, v.len() as int) =~= v@);
    s
}

/// Whether `p` stands in `v` at position `i`.
pub fn matches_at(v: &Vec<char>, p: &Vec<char>, i: usize) -> (r: bool)
    requires
        i <= v.len(),
    ensures
        r == stands_at(v@, p@, i as int),
{
    if p.len() > v.len() - i {
        return false;
    }
    let mut k: usize = 0;
    while k < p.len()
        invariant
            k <= p.len(),
            i + p.len() <= v.len(),
            forall|j: int| 0 <= j < k ==> v@[i + j] == p@[j],
        decreases p.len() - k,
    {
        if v[i + k] != p[k] {
            assert(v@.subrange(i as int, i + p.len())[k as int] != p@[k as int]);
            return false;
        }
        k += 1;
    }
    assert(v@.subrange(i as int, i + p.len()) =~= p@);
    true
}

/// Whether `s` begins with `p`.
pub fn starts_with(s: &str, p: &str) -> (r: bool)
    ensures
        r == has_prefix(s@, p@),
{
    let v = chars_of(s);
    let w = chars_of(p);
    assert(p@.len() <= s@.len() ==> s@.take(p@.len() as int) =~= s@.subrange(0, p@.len() as int));
    matches_at(&v, &w, 0)
}

/// Whether `s` ends with `p`.
pub fn ends_with(s: &str, p: &str) -> (r: bool)
    ensures
        r == has_suffix(s@, p@),
{
    let v = chars_of(s);
    let w = chars_of(p);
    if w.len() > v.len() {
        return false;
    }
    assert(s@.skip(s@.len() - p@.len()) =~= s@.subrange(s@.len() - p@.len(), s@.len() as int));
    matches_at(&v, &w, v.len() - w.len())
}

/// Whether `p` stands anywhere in `s`.
pub fn contains(s: &str, p: &str) -> (r: bool)
    ensures
        r == has_substring(s@, p@),
{
    let v = chars_of(s);
    let w = chars_of(p);
    let mut i: usize = 0;
    while i < v.len()
        invariant
            i <= v.len(),
            v@ == s@,
            w@ == p@,
            forall|j: int| 0 <= j < i ==> !stands_at(v@, w@, j),
        decreases v.len() - i,
    {
        if matches_at(&v, &w, i) {
            return true;
        }
        i += 1;
    }
    matches_at(&v, &w, i)
}

/// The text without its first `n` characters.
pub fn skip(s: &str, n: usize) -> (r: String)
    requires
        n <= s@.len(),
    ensures
        r@ == s@.skip(n as int),
{
    let v = chars_of(s);
    let r = range_text(&v, n, v.len());
    assert(s@.skip(n as int) =~= s@.subrange(n as int, s@.len() as int));
    r
}

/// The position of the first `c` in `v`, or the length of `v`.
pub fn position(v: &Vec<char>, c: char) -> (r: usize)
    ensures
        r <= v.len(),
        forall|j: int| 0 <= j < r ==> v@[j] != c,
        r < v.len() ==> v@[r as int] == c,
{
    let mut i: usize = 0;
    while i < v.len()
        invariant
            i <= v.len(),
            forall|j: int| 0 <= j < i ==> v@[j] != c,
        decreases v.len() - i,
    {
        if v[i] == c {
            return i;
        }
        i += 1;
    }
    i
}

/// Whether `c` occurs in `s`.
pub fn has_char(s: &str, c: char) -> (r: bool)
    ensures
        r == s@.contains(c),
{
    let v = chars_of(s);
    let p: usize = position(&v, c);
    if p < v.len() {
        assert(s@[p as int] == c);
    }
    p < v.len()
}

/// Appends the decimal notation of `n`.
pub fn push_number(s: &mut String, n: u64)
    ensures
        final(s)@ == old(s)@ + decimal(n as nat),
    decreases n,
{
    if n >= 10 {
        push_number(s, n / 10);
    }
    let d: u8 = (n % 10) as u8;
    s.push((48 + d) as char);
    assert(s@ =~= old(s)@ + decimal(n as nat));
}

/// The decimal notation of `n`.
pub fn number_text(n: u64) -> (s: String)
    ensures
        s@ == decimal(n as nat),
{
    let mut s = String::new();
    push_number(&mut s, n);
    assert(s@ =~= decimal(n as nat));
    s
}

/// Appends the decimal notation of a signed number.
pub fn push_signed(s: &mut String, n: i64)
    ensures
        final(s)@ == old(s)@ + signed_decimal(n as int),
{
    if n < 0 {
        s.push('-');
        let m: u64 = (-(n as i128)) as u64;
        push_number(s, m);
        assert(s@ =~= old(s)@ + signed_decimal(n as int));
    } else {
        push_number(s, n as u64);
    }
}

proof fn lemma_digits_value_grows(s: Seq<char>, k: int)
    requires
        all_digits(s),
        0 <= k <= s.len(),
    ensures
        digits_value(s.take(k)) <= digits_value(s),
    decreases s.len() - k,
{
    if k == s.len() {
        assert(s.take(k) =~= s);
    } else {
        lemma_digits_value_grows(s, k + 1);
        assert(s.take(k + 1).drop_last() =~= s.take(k));
        assert(is_digit(s[k]));
    }
}

/// Reads an unsigned number no larger than `max`.
pub fn parse_number(s: &str, max: u64) -> (r: Option<u64>)
    ensures
        r matches Some(n) ==> number(s@, max as nat) == Some(n as nat),
        r is None ==> number(s@, max as nat) is None,
{
    let v = chars_of(s);
    let start: usize = if v.len() > 0 && v[0] == '+' { 1 } else { 0 };
    let ghost body = after_plus(s@);
    assert(body =~= v@.skip(start as int));
    if v.len() == start {
        return None;
    }
    let mut n: u64 = 0;
    let mut i: usize = start;
    while i < v.len()
        invariant
            start <= i <= v.len(),
            v@ == s@,
            body == after_plus(s@),
            body == v@.skip(start as int),
            body.len() == v.len() - start,
            forall|j: int| 0 <= j < i - start ==> is_digit(#[trigger] body[j]),
            n == digits_value(body.take(i - start)),
            n <= max,
        decreases v.len() - i,
    {
        let c: char = v[i];
        assert(c == body[i - start]);
        if c < '0' || c > '9' {
            assert(!is_digit(body[i - start]));
            return None;
        }
        let d: u64 = (c as u8 - 48) as u64;
        let wide: u128 = (n as u128) * 10 + (d as u128);
        proof {
            assert(body.take(i - start + 1).drop_last() =~= body.take(i - start));
            assert(digits_value(body.take(i - start + 1)) == wide);
            if all_digits(body) {
                lemma_digits_value_grows(body, i - start + 1);
            }
        }
        if wide > max as u128 {
            return None;
        }
        n = wide as u64;
        i += 1;
    }
    assert(body.take(v.len() - start) =~= body);
    Some(n)
}

/// Whether `s` denotes a signed number: an optional sign and at least one digit,
/// no larger than `max` and no smaller than minus `min`.
pub open spec fn signed_number(s: Seq<char>, max: nat, min: nat) -> bool {
    if s.len() > 0 && s[0] == '-' {
        s.len() > 1 && all_digits(s.skip(1)) && digits_value(s.skip(1)) <= min
    } else {
        number(s, max) is Some
    }
}

/// Whether `s` denotes a signed number within the bounds.
pub fn is_signed_number(s: &str, max: u64, min: u64) -> (r: bool)
    ensures
        r == signed_number(s@, max as nat, min as nat),
{
    let v = chars_of(s);
    if v.len() > 0 && v[0] == '-' {
        let rest = skip(s, 1);
        if v.len() > 1 && v[1] == '+' {
            assert(!is_digit(s@.skip(1)[0]));
            return false;
        }
        parse_number(rest.as_str(), min).is_some()
    } else {
        parse_number(s, max).is_some()
    }
}

/// Whether a character is white space, as Unicode has it.
pub open spec fn is_white(c: char) -> bool {
    ||| '\u{9}' <= c && c <= '\u{d}'
    ||| c == ' '
    ||| c == '\u{85}'
    ||| c == '\u{a0}'
    ||| c == '\u{1680}'
    ||| '\u{2000}' <= c && c <= '\u{200a}'
    ||| c == '\u{2028}'
    ||| c == '\u{2029}'
    ||| c == '\u{202f}'
    ||| c == '\u{205f}'
    ||| c == '\u{3000}'
}

/// Whether a character is white space, as Unicode has it.
pub fn white(c: char) -> (r: bool)
    ensures
        r == is_white(c),
{
    ('\u{9}' <= c && c <= '\u{d}') || c == ' ' || c == '\u{85}' || c == '\u{a0}' || c == '\u{1680}'
        || ('\u{2000}' <= c && c <= '\u{200a}') || c == '\u{2028}' || c == '\u{2029}' || c
        == '\u{202f}' || c == '\u{205f}' || c == '\u{3000}'
}

/// A text without the white space at its end.
pub open spec fn trimmed_end(s: Seq<char>) -> Seq<char>
    decreases s.len(),
{
    if s.len() > 0 && is_white(s.last()) {
        trimmed_end(s.drop_last())
    } else {
        s
    }
}

/// A text without the white space at its beginning.
pub open spec fn trimmed_start(s: Seq<char>) -> Seq<char>
    decreases s.len(),
{
    if s.len() > 0 && is_white(s[0]) {
        trimmed_start(s.skip(1))
    } else {
        s
    }
}

/// A text without the white space at either end.
pub open spec fn trimmed(s: Seq<char>) -> Seq<char> {
    trimmed_end(trimmed_start(s))
}

/// A text without the white space at its end.
pub fn trim_end(s: &str) -> (r: String)
    ensures
        r@ == trimmed_end(s@),
{
    let v = chars_of(s);
    let mut to: usize = v.len();
    assert(v@.subrange(0, to as int) =~= v@);
    while to > 0 && white(v[to - 1])
        invariant
            to <= v.len(),
            trimmed_end(v@.subrange(0, to as int)) == trimmed_end(v@),
        decreases to,
    {
        assert(v@.subrange(0, to as int).drop_last() =~= v@.subrange(0, to - 1));
        to -= 1;
    }
    range_text(&v, 0, to)
}

/// A text without the white space at its beginning.
pub fn trim_start(s: &str) -> (r: String)
    ensures
        r@ == trimmed_start(s@),
{
    let v = chars_of(s);
    let mut from: usize = 0;
    assert(v@.subrange(0, v.len() as int) =~= v@);
    while from < v.len() && white(v[from])
        invariant
            from <= v.len(),
            trimmed_start(v@.subrange(from as int, v.len() as int)) == trimmed_start(v@),
        decreases v.len() - from,
    {
        assert(v@.subrange(from as int, v.len() as int).skip(1) =~= v@.subrange(
            from + 1,
            v.len() as int,
        ));
        from += 1;
    }
    range_text(&v, from, v.len())
}

/// A text without the white space at either end.
pub fn trim(s: &str) -> (r: String)
    ensures
        r@ == trimmed(s@),
{
    let start = trim_start(s);
    trim_end(start.as_str())
}

/// What stands before the first `c`, or all of it where there is none.
pub open spec fn before_char(s: Seq<char>, c: char) -> Seq<char>
    decreases s.len(),
{
    if s.len() == 0 || s[0] == c {
        Seq::empty()
    } else {
        seq![s[0]] + before_char(s.skip(1), c)
    }
}

/// What stands behind the first `c`, if there is one.
pub open spec fn after_char(s: Seq<char>, c: char) -> Option<Seq<char>>
    decreases s.len(),
{
    if s.len() == 0 {
        None
    } else if s[0] == c {
        Some(s.skip(1))
    } else {
        after_char(s.skip(1), c)
    }
}

proof fn lemma_split_at(s: Seq<char>, c: char, p: int)
    requires
        0 <= p <= s.len(),
        forall|j: int| 0 <= j < p ==> s[j] != c,
        p < s.len() ==> s[p] == c,
    ensures
        before_char(s, c) == s.take(p),
        after_char(s, c) == (if p < s.len() {
            Some(s.skip(p + 1))
        } else {
            None
        }),
    decreases p,
{
    if p == 0 {
        assert(s.take(0) =~= Seq::<char>::empty());
    } else {
        lemma_split_at(s.skip(1), c, p - 1);
        assert(s.take(p) =~= seq![s[0]] + s.skip(1).take(p - 1));
        if p < s.len() {
            assert(s.skip(1).skip(p) =~= s.skip(p + 1));
        }
    }
}

/// A text parted at the first `c`: what stands before it, or all of the text where
/// there is none, and what stands behind it.
pub fn split_once(s: &str, c: char) -> (r: (String, Option<String>))
    ensures
        r.0@ == before_char(s@, c),
        r.1 matches Some(t) ==> after_char(s@, c) == Some(t@),
        r.1 is None ==> after_char(s@, c) is None,
{
    let v = chars_of(s);
    let p: usize = position(&v, c);
    proof {
        lemma_split_at(s@, c, p as int);
    }
    let front = range_text(&v, 0, p);
    assert(v@.subrange(0, p as int) =~= s@.take(p as int));
    if p < v.len() {
        let back = range_text(&v, p + 1, v.len());
        assert(v@.subrange(p + 1, v.len() as int) =~= s@.skip(p + 1));
        (front, Some(back))
    } else {
        (front, None)
    }
}

/// Joins `parts`, with `sep` between each two neighbours.
pub fn join(parts: &Vec<String>, sep: &str) -> (s: String)
    ensures
        s@ == joined(texts(parts@), sep@),
{
    let mut s = String::new();
    let mut i: usize = 0;
    while i < parts.len()
        invariant
            i <= parts.len(),
            s@ == joined(texts(parts@).take(i as int), sep@),
        decreases parts.len() - i,
    {
        if i > 0 {
            s.append(sep);
        }
        s.append(parts[i].as_str());
        proof {
            let t = texts(parts@);
            assert(t.take(i + 1).drop_last() =~= t.take(i as int));
            assert(s@ =~= joined(t.take(i + 1), sep@));
        }
        i += 1;
    }
    assert(texts(parts@).take(parts.len() as int) =~= texts(parts@));
    s
}

/// Replaces every `c` in `s` by `by`.
pub fn replace(s: &str, c: char, by: &str) -> (r: String)
    ensures
        r@ == replaced(s@, c, by@),
{
    let v = chars_of(s);
    let mut r = String::new();
    let mut i: usize = 0;
    while i < v.len()
        invariant
            i <= v.len(),
            r@ == replaced(v@.take(i as int), c, by@),
        decreases v.len() - i,
    {
        if v[i] == c {
            r.append(by);
        } else {
            r.push(v[i]);
        }
        proof {
            assert(v@.take(i + 1).drop_last() =~= v@.take(i as int));
            assert(r@ =~= replaced(v@.take(i + 1), c, by@));
        }
        i += 1;
    }
    assert(v@.take(v.len() as int) =~= v@);
    r
}

/// What comes of the first character when characters are replaced.
pub proof fn lemma_replaced_first(s: Seq<char>, c: char, by: Seq<char>)
    requires
        s.len() > 0,
    ensures
        replaced(s, c, by) == (if s[0] == c {
            by
        } else {
            seq![s[0]]
        }) + replaced(s.skip(1), c, by),
    decreases s.len(),
{
    if s.len() == 1 {
        assert(s.drop_last() =~= Seq::empty());
        assert(s.skip(1) =~= Seq::empty());
        assert(replaced(s, c, by) =~= (if s[0] == c {
            by
        } else {
            seq![s[0]]
        }) + replaced(s.skip(1), c, by));
    } else {
        lemma_replaced_first(s.drop_last(), c, by);
        assert(s.drop_last().skip(1) =~= s.skip(1).drop_last());
        assert(s.skip(1).last() == s.last());
        assert(replaced(s, c, by) =~= (if s[0] == c {
            by
        } else {
            seq![s[0]]
        }) + replaced(s.skip(1), c, by));
    }
}

/// Whether `a` comes before `b`: the first character in which they differ is the smaller
/// one in `a`, or `a` ends first.
pub open spec fn before(a: Seq<char>, b: Seq<char>) -> bool
    decreases a.len(),
{
    if b.len() == 0 {
        false
    } else if a.len() == 0 {
        true
    } else if a[0] == b[0] {
        before(a.skip(1), b.skip(1))
    } else {
        a[0] < b[0]
    }
}

/// Whether `a` comes before `b`.
pub fn comes_before(a: &str, b: &str) -> (r: bool)
    ensures
        r == before(a@, b@),
{
    let v = chars_of(a);
    let w = chars_of(b);
    let mut i: usize = 0;
    assert(v@.skip(0) =~= v@);
    assert(w@.skip(0) =~= w@);
    while i < v.len() && i < w.len()
        invariant
            i <= v.len(),
            i <= w.len(),
            v@ == a@,
            w@ == b@,
            before(v@.skip(i as int), w@.skip(i as int)) == before(a@, b@),
        decreases v.len() - i,
    {
        let c: char = v[i];
        let d: char = w[i];
        if c != d {
            return c < d;
        }
        assert(v@.skip(i as int).skip(1) =~= v@.skip(i + 1));
        assert(w@.skip(i as int).skip(1) =~= w@.skip(i + 1));
        i += 1;
    }
    i < w.len()
}

/// Texts in order, with one more in its place.
pub open spec fn placed(sorted: Seq<Seq<char>>, t: Seq<char>) -> Seq<Seq<char>>
    decreases sorted.len(),
{
    if sorted.len() == 0 || !before(t, sorted.last()) {
        sorted.push(t)
    } else {
        placed(sorted.drop_last(), t).push(sorted.last())
    }
}

/// Texts, put in order.
pub open spec fn sorted_texts(s: Seq<Seq<char>>) -> Seq<Seq<char>>
    decreases s.len(),
{
    if s.len() == 0 {
        s
    } else {
        placed(sorted_texts(s.drop_last()), s.last())
    }
}

/// Puts a text in its place among texts in order.
fn place(sorted: &mut Vec<String>, t: String)
    ensures
        texts(final(sorted)@) == placed(texts(old(sorted)@), t@),
{
    let ghost all = texts(sorted@);
    let mut i: usize = sorted.len();
    assert(all.take(i as int) =~= all);
    assert(placed(all.take(i as int), t@) + all.skip(i as int) =~= placed(all, t@));
    while i > 0 && comes_before(t.as_str(), sorted[i - 1].as_str())
        invariant
            i <= sorted.len(),
            all == texts(sorted@),
            placed(all.take(i as int), t@) + all.skip(i as int) == placed(all, t@),
        decreases i,
    {
        assert(all.take(i as int).drop_last() =~= all.take(i - 1));
        assert(all.skip(i - 1) =~= seq![all[i - 1]] + all.skip(i as int));
        assert(placed(all.take(i - 1), t@) + all.skip(i - 1) =~= placed(all.take(i as int), t@)
            + all.skip(i as int));
        i -= 1;
    }
    let ghost text = t@;
    sorted.insert(i, t);
    proof {
        if i > 0 {
            assert(all.take(i as int).last() == sorted@[i - 1]@);
        }
        assert(texts(sorted@) =~= all.take(i as int).push(text) + all.skip(i as int));
    }
}

/// Puts texts in order.
pub fn sort_texts(v: &Vec<String>) -> (r: Vec<String>)
    ensures
        texts(r@) == sorted_texts(texts(v@)),
{
    let mut r: Vec<String> = Vec::new();
    let mut i: usize = 0;
    assert(texts(r@) =~= Seq::empty());
    while i < v.len()
        invariant
            i <= v.len(),
            texts(r@) == sorted_texts(texts(v@).take(i as int)),
        decreases v.len() - i,
    {
        place(&mut r, v[i].clone());
        assert(texts(v@).take(i + 1).drop_last() =~= texts(v@).take(i as int));
        i += 1;
    }
    assert(texts(v@).take(i as int) =~= texts(v@));
    r
}

/// Whether no text comes before one that stands in front of it.
pub open spec fn in_order(s: Seq<Seq<char>>) -> bool {
    forall|i: int, j: int| 0 <= i < j < s.len() ==> !before(#[trigger] s[j], #[trigger] s[i])
}

proof fn lemma_not_before_transitive(a: Seq<char>, b: Seq<char>, c: Seq<char>)
    requires
        !before(b, a),
        !before(c, b),
    ensures
        !before(c, a),
    decreases a.len(),
{
    if a.len() > 0 && b.len() > 0 && c.len() > 0 && a[0] == b[0] && b[0] == c[0] {
        lemma_not_before_transitive(a.skip(1), b.skip(1), c.skip(1));
    }
}

proof fn lemma_before_asymmetric(a: Seq<char>, b: Seq<char>)
    requires
        before(a, b),
    ensures
        !before(b, a),
    decreases a.len(),
{
    if a.len() > 0 && b.len() > 0 && a[0] == b[0] {
        lemma_before_asymmetric(a.skip(1), b.skip(1));
    }
}

proof fn lemma_placed(s: Seq<Seq<char>>, t: Seq<char>)
    requires
        in_order(s),
    ensures
        in_order(placed(s, t)),
        placed(s, t).to_multiset() == s.to_multiset().insert(t),
    decreases s.len(),
{
    broadcast use vstd::seq_lib::group_to_multiset_ensures;

    if s.len() == 0 {
    } else if !before(t, s.last()) {
        assert forall|i: int| 0 <= i < s.len() implies !before(t, #[trigger] s[i]) by {
            if i < s.len() - 1 {
                lemma_not_before_transitive(s[i], s.last(), t);
            }
        }
    } else {
        let front = s.drop_last();
        let p = placed(front, t);
        lemma_placed(front, t);
        lemma_before_asymmetric(t, s.last());
        assert(s =~= front.push(s.last()));
        assert forall|i: int| 0 <= i < p.len() implies !before(s.last(), #[trigger] p[i]) by {
            assert(p.to_multiset().contains(p[i]));
            if p[i] != t {
                assert(front.to_multiset().contains(p[i]));
                assert(front.contains(p[i]));
                let k = front.index_of(p[i]);
                assert(s[k] == p[i]);
                assert(!before(s[s.len() - 1], s[k]));
            }
        }
        assert(p.push(s.last()).to_multiset() =~= s.to_multiset().insert(t));
    }
}

/// Sorting puts texts in order, and neither loses nor makes any.
pub proof fn sorting_orders(s: Seq<Seq<char>>)
    ensures
        in_order(sorted_texts(s)),
        sorted_texts(s).to_multiset() == s.to_multiset(),
    decreases s.len(),
{
    broadcast use vstd::seq_lib::group_to_multiset_ensures;

    if s.len() > 0 {
        sorting_orders(s.drop_last());
        lemma_placed(sorted_texts(s.drop_last()), s.last());
        assert(s =~= s.drop_last().push(s.last()));
    }
}

/// How many characters stand before the first white space.
pub open spec fn word_len(s: Seq<char>) -> nat
    decreases s.len(),
{
    if s.len() == 0 || is_white(s[0]) {
        0
    } else {
        1 + word_len(s.skip(1))
    }
}

/// The words of a text: what stands between white space.
pub open spec fn words(s: Seq<char>) -> Seq<Seq<char>>
    decreases s.len(),
    via words_end
{
    let t = trimmed_start(s);
    if t.len() == 0 {
        Seq::empty()
    } else {
        seq![t.take(word_len(t) as int)] + words(t.skip(word_len(t) as int))
    }
}

proof fn lemma_trimmed_start(s: Seq<char>)
    ensures
        trimmed_start(s).len() <= s.len(),
        trimmed_start(s) == s.skip(s.len() - trimmed_start(s).len()),
        trimmed_start(s).len() > 0 ==> !is_white(trimmed_start(s)[0]),
    decreases s.len(),
{
    if s.len() > 0 && is_white(s[0]) {
        lemma_trimmed_start(s.skip(1));
        assert(s.skip(1).skip(s.len() - 1 - trimmed_start(s).len()) =~= s.skip(
            s.len() - trimmed_start(s).len(),
        ));
    } else {
        assert(s.skip(0) =~= s);
    }
}

proof fn lemma_word_len(s: Seq<char>)
    ensures
        word_len(s) <= s.len(),
        s.len() > 0 && !is_white(s[0]) ==> word_len(s) > 0,
    decreases s.len(),
{
    if s.len() > 0 && !is_white(s[0]) {
        lemma_word_len(s.skip(1));
    }
}

#[via_fn]
proof fn words_end(s: Seq<char>) {
    lemma_trimmed_start(s);
    lemma_word_len(trimmed_start(s));
}

/// The words of a text.
pub fn split_words(s: &str) -> (r: Vec<String>)
    ensures
        texts(r@) == words(s@),
{
    let v = chars_of(s);
    let mut r: Vec<String> = Vec::new();
    let mut i: usize = 0;
    assert(v@.skip(0) =~= v@);
    assert(texts(r@) + words(v@.skip(0)) =~= words(s@));
    while i < v.len()
        invariant
            i <= v.len(),
            texts(r@) + words(v@.skip(i as int)) == words(s@),
        decreases v.len() - i,
    {
        let ghost rest = v@.skip(i as int);
        if white(v[i]) {
            proof {
                assert(rest.skip(1) =~= v@.skip(i + 1));
                assert(words(rest) =~= words(v@.skip(i + 1)));
            }
            i += 1;
        } else {
            let from: usize = i;
            while i < v.len() && !white(v[i])
                invariant
                    from <= i <= v.len(),
                    rest == v@.skip(from as int),
                    word_len(rest) == (i - from) + word_len(v@.skip(i as int)),
                decreases v.len() - i,
            {
                assert(v@.skip(i as int).skip(1) =~= v@.skip(i + 1));
                i += 1;
            }
            proof {
                lemma_word_len(rest);
                assert(word_len(v@.skip(i as int)) == 0);
                assert(trimmed_start(rest) == rest);
                assert(rest.take(i - from) =~= v@.subrange(from as int, i as int));
                assert(rest.skip(i - from) =~= v@.skip(i as int));
            }
            let ghost done = texts(r@);
            r.push(range_text(&v, from, i));
            assert(texts(r@) =~= done.push(v@.subrange(from as int, i as int)));
            assert(texts(r@) + words(v@.skip(i as int)) =~= done + words(rest));
        }
    }
    assert(v@.skip(i as int) =~= Seq::empty());
    assert(words(v@.skip(i as int)) =~= Seq::empty());
    assert(texts(r@) =~= words(s@));
    r
}

/// A line without the carriage return at its end.
pub open spec fn without_return(s: Seq<char>) -> Seq<char> {
    if s.len() > 0 && s.last() == '\r' {
        s.drop_last()
    } else {
        s
    }
}

/// The lines of a text. Each ends at a line feed, with or without a carriage return
/// before it; the last one may have none.
pub open spec fn lines(s: Seq<char>) -> Seq<Seq<char>>
    decreases s.len(),
    via lines_end
{
    if s.len() == 0 {
        Seq::empty()
    } else {
        match after_char(s, '\n') {
            Some(rest) => seq![without_return(before_char(s, '\n'))] + lines(rest),
            None => seq![s],
        }
    }
}

proof fn lemma_after_char_shorter(s: Seq<char>, c: char)
    ensures
        after_char(s, c) matches Some(rest) ==> rest.len() < s.len(),
    decreases s.len(),
{
    if s.len() > 0 && s[0] != c {
        lemma_after_char_shorter(s.skip(1), c);
    }
}

#[via_fn]
proof fn lines_end(s: Seq<char>) {
    lemma_after_char_shorter(s, '\n');
}

/// The lines of a text.
pub fn split_lines(s: &str) -> (r: Vec<String>)
    ensures
        texts(r@) == lines(s@),
{
    let v = chars_of(s);
    let mut r: Vec<String> = Vec::new();
    let mut from: usize = 0;
    assert(v@.skip(0) =~= v@);
    assert(texts(r@) + lines(v@.skip(0)) =~= lines(s@));
    while from < v.len()
        invariant
            from <= v.len(),
            texts(r@) + lines(v@.skip(from as int)) == lines(s@),
        decreases v.len() - from,
    {
        let ghost rest = v@.skip(from as int);
        let mut to: usize = from;
        while to < v.len() && v[to] != '\n'
            invariant
                from <= to <= v.len(),
                rest == v@.skip(from as int),
                forall|j: int| 0 <= j < to - from ==> rest[j] != '\n',
            decreases v.len() - to,
        {
            assert(rest[to - from] == v@[to as int]);
            to += 1;
        }
        proof {
            if to < v.len() {
                assert(rest[to - from] == '\n');
            }
            lemma_split_at(rest, '\n', to - from);
        }
        let ghost done = texts(r@);
        if to == v.len() {
            r.push(range_text(&v, from, to));
            proof {
                assert(v@.subrange(from as int, to as int) =~= rest);
                assert(texts(r@) =~= done.push(rest));
                assert(lines(rest) =~= seq![rest]);
                assert(texts(r@) =~= done + lines(rest));
            }
            return r;
        }
        let end: usize = if to > from && v[to - 1] == '\r' { to - 1 } else { to };
        r.push(range_text(&v, from, end));
        proof {
            assert(rest.take(to - from) =~= v@.subrange(from as int, to as int));
            assert(without_return(rest.take(to - from)) =~= v@.subrange(from as int, end as int));
            assert(rest.skip(to - from + 1) =~= v@.skip(to + 1));
            assert(texts(r@) =~= done.push(v@.subrange(from as int, end as int)));
            assert(texts(r@) + lines(v@.skip(to + 1)) =~= done + lines(rest));
        }
        from = to + 1;
    }
    assert(v@.skip(from as int) =~= Seq::empty());
    assert(texts(r@) =~= lines(s@));
    r
}

/// `s` from position `i` on, with every `p` replaced by `by`, from the left.
pub open spec fn replaced_from(s: Seq<char>, p: Seq<char>, by: Seq<char>, i: int) -> Seq<char>
    decreases s.len() - i,
{
    if i < 0 || i >= s.len() {
        Seq::empty()
    } else if p.len() > 0 && stands_at(s, p, i) {
        by + replaced_from(s, p, by, i + p.len())
    } else {
        seq![s[i]] + replaced_from(s, p, by, i + 1)
    }
}

/// `s` with every `p` replaced by `by`, from the left.
pub open spec fn replaced_text(s: Seq<char>, p: Seq<char>, by: Seq<char>) -> Seq<char> {
    replaced_from(s, p, by, 0)
}

/// Replaces every `p` in `s` by `by`, from the left.
pub fn replace_text(s: &str, p: &str, by: &str) -> (r: String)
    requires
        p@.len() > 0,
    ensures
        r@ == replaced_text(s@, p@, by@),
{
    let v = chars_of(s);
    let q = chars_of(p);
    let mut r = String::new();
    let mut i: usize = 0;
    assert(r@ + replaced_from(s@, p@, by@, 0) =~= replaced_text(s@, p@, by@));
    while i < v.len()
        invariant
            i <= v.len(),
            v@ == s@,
            q@ == p@,
            q.len() > 0,
            r@ + replaced_from(s@, p@, by@, i as int) == replaced_text(s@, p@, by@),
        decreases v.len() - i,
    {
        let ghost done = r@;
        if matches_at(&v, &q, i) {
            r.append(by);
            assert(r@ + replaced_from(s@, p@, by@, i + q.len()) =~= done + replaced_from(
                s@,
                p@,
                by@,
                i as int,
            ));
            i += q.len();
        } else {
            r.push(v[i]);
            assert(r@ + replaced_from(s@, p@, by@, i + 1) =~= done + replaced_from(s@, p@, by@, i as int));
            i += 1;
        }
    }
    assert(r@ =~= replaced_text(s@, p@, by@));
    r
}

/// How many bytes a text takes.
pub open spec fn byte_count(s: Seq<char>) -> usize {
    vstd::utf8::encode_utf8(s).len() as usize
}

/// How many bytes a text takes.
pub fn byte_len(s: &str) -> (n: usize)
    ensures
        n == byte_count(s@),
{
    s.len()
}

} // verus!
