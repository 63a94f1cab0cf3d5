//! UTF-16 code units of text.

use vstd::prelude::*;
use crate::text::chars_of;

verus! {

/// The UTF-16 code units of a character: one unit inside the basic plane, a
/// surrogate pair beyond it.
pub open spec fn units_of(c: char) -> Seq<u16> {
    let n = c as int;
    if n < 0x10000 {
        seq![n as u16]
    } else {
        seq![(0xD800 + (n - 0x10000) / 0x400) as u16, (0xDC00 + (n - 0x10000) % 0x400) as u16]
    }
}

/// The UTF-16 code units of a text.
pub open spec fn utf16(s: Seq<char>) -> Seq<u16>
    decreases s.len(),
{
    if s.len() == 0 {
        Seq::empty()
    } else {
        utf16(s.drop_last()) + units_of(s.last())
    }
}

/// The first code unit of a character.
pub open spec fn first_unit(c: char) -> u16 {
    units_of(c)[0]
}

/// Whether a code unit is the first half of a surrogate pair.
pub open spec fn is_high(u: u16) -> bool {
    0xD800 <= u < 0xDC00
}

/// Whether a code unit is the second half of a surrogate pair.
pub open spec fn is_low(u: u16) -> bool {
    0xDC00 <= u < 0xE000
}

/// The character that a surrogate pair stands for.
pub open spec fn paired(high: u16, low: u16) -> char {
    (0x10000 + (high - 0xD800) * 0x400 + (low - 0xDC00)) as char
}

/// The text of code units: each surrogate that is not half of a pair reads as the
/// replacement character.
pub open spec fn lossy_text(units: Seq<u16>) -> Seq<char>
    decreases units.len(),
{
    if units.len() == 0 {
        Seq::empty()
    } else if !is_high(units[0]) && !is_low(units[0]) {
        seq![units[0] as char] + lossy_text(units.skip(1))
    } else if units.len() > 1 && is_high(units[0]) && is_low(units[1]) {
        seq![paired(units[0], units[1])] + lossy_text(units.skip(2))
    } else {
        seq!['\u{FFFD}'] + lossy_text(units.skip(1))
    }
}

proof fn lemma_char_range(c: char)
    ensures
        0 <= c as int <= 0x10FFFF,
        (c as int) < 0xD800 || 0xE000 <= c as int,
{
}

proof fn lemma_utf16_front(s: Seq<char>)
    requires
        s.len() > 0,
    ensures
        utf16(s) == units_of(s[0]) + utf16(s.skip(1)),
    decreases s.len(),
{
    if s.len() == 1 {
        assert(s.drop_last() =~= Seq::<char>::empty());
        assert(s.skip(1) =~= Seq::<char>::empty());
        assert(utf16(s) =~= units_of(s[0]) + utf16(s.skip(1)));
    } else {
        lemma_utf16_front(s.drop_last());
        assert(s.drop_last().skip(1) =~= s.skip(1).drop_last());
        assert(utf16(s) =~= units_of(s[0]) + utf16(s.skip(1)));
    }
}

/// The code units of a text read back as that text.
pub proof fn utf16_reads_back(s: Seq<char>)
    ensures
        lossy_text(utf16(s)) == s,
    decreases s.len(),
{
    if s.len() == 0 {
    } else {
        let c = s[0];
        let rest = utf16(s.skip(1));
        let u = utf16(s);
        lemma_utf16_front(s);
        lemma_char_range(c);
        utf16_reads_back(s.skip(1));
        assert(s =~= seq![c] + s.skip(1));
        if (c as int) < 0x10000 {
            assert(u.skip(1) =~= rest);
        } else {
            assert(u.skip(2) =~= rest);
            assert(is_high(u[0]) && is_low(u[1]));
            assert(paired(u[0], u[1]) == c);
        }
    }
}

/// `char::from_u32` gives the character with the given code point, and nothing
/// for a surrogate or a number past the last code point.
pub assume_specification[ char::from_u32 ](i: u32) -> (r: Option<char>)
    ensures
        r == (if i < 0xD800 || 0xE000 <= i <= 0x10FFFF {
            Some(i as char)
        } else {
            None
        }),
;

/// The text of code units, with the replacement character for each surrogate that
/// is not half of a pair.
pub fn decode_lossy(units: &Vec<u16>) -> (s: String)
    ensures
        s@ == lossy_text(units@),
{
    let mut s = String::new();
    let mut i: usize = 0;
    assert(units@.skip(0) =~= units@);
    while i < units.len()
        invariant
            i <= units.len(),
            s@ + lossy_text(units@.skip(i as int)) == lossy_text(units@),
        decreases units.len() - i,
    {
        let a: u16 = units[i];
        let ghost before = s@;
        let ghost rest = units@.skip(i as int);
        assert(rest.skip(1) =~= units@.skip(i + 1));
        if a < 0xD800 || a >= 0xE000 {
            match char::from_u32(a as u32) {
                Some(c) => s.push(c),
                None => {},
            }
            i += 1;
        } else if a < 0xDC00 && i + 1 < units.len() && units[i + 1] >= 0xDC00 && units[i + 1]
            < 0xE000 {
            let b: u16 = units[i + 1];
            let n: u32 = 0x10000 + (a - 0xD800) as u32 * 0x400 + (b - 0xDC00) as u32;
            match char::from_u32(n) {
                Some(c) => s.push(c),
                None => {},
            }
            assert(rest.skip(2) =~= units@.skip(i + 2));
            i += 2;
        } else {
            s.push('\u{FFFD}');
            i += 1;
        }
        assert(s@ + lossy_text(units@.skip(i as int)) =~= before + lossy_text(rest));
    }
    assert(units@.skip(units.len() as int) =~= Seq::<u16>::empty());
    assert(s@ =~= lossy_text(units@));
    s
}

/// Appends the code units of a character.
pub fn push_units(v: &mut Vec<u16>, c: char)
    ensures
        final(v)@ == old(v)@ + units_of(c),
{
    let n: u32 = c as u32;
    if n < 0x10000 {
        v.push(n as u16);
    } else {
        let m: u32 = n - 0x10000;
        v.push((0xD800 + m / 0x400) as u16);
        v.push((0xDC00 + m % 0x400) as u16);
    }
    assert(v@ =~= old(v)@ + units_of(c));
}

/// The first code unit of a character.
pub fn first_unit_of(c: char) -> (u: u16)
    ensures
        u == first_unit(c),
{
    let n: u32 = c as u32;
    if n < 0x10000 {
        n as u16
    } else {
        (0xD800 + (n - 0x10000) / 0x400) as u16
    }
}

/// The code units of a text.
pub fn encode(s: &str) -> (v: Vec<u16>)
    ensures
        v@ == utf16(s@),
{
    let cs = chars_of(s);
    let mut v: Vec<u16> = Vec::new();
    let mut i: usize = 0;
    while i < cs.len()
        invariant
            i <= cs.len(),
            v@ == utf16(cs@.take(i as int)),
        decreases cs.len() - i,
    {
        push_units(&mut v, cs[i]);
        assert(cs@.take(i + 1).drop_last() =~= cs@.take(i as int));
        i += 1;
    }
    assert(cs@.take(cs.len() as int) =~= cs@);
    v
}

} // verus!
