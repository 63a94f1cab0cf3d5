//! Keys by name: what is sent to a pane for them.

use vstd::prelude::*;
use crate::cli::words::opt_text;
use crate::platform::process_info::lowercase;
use crate::text::{
    all_digits, char_at, chars_of, decimal, has_prefix, is_digit, lower_ascii, lowered_ascii, push_number,
    same, skip, starts_with, texts,
};

verus! {

/// The text in upper case, by Unicode's mapping.
pub uninterp spec fn uppercase(s: Seq<char>) -> Seq<char>;

/// `str::to_uppercase` gives the upper-case equivalent of the text; the mapping
/// itself, Unicode's, is not stated.
pub assume_specification[ str::to_uppercase ](s: &str) -> (r: String)
    ensures
        r@ == uppercase(s@),
;

/// What is sent for a key with a name of its own, given in capitals.
pub open spec fn key_sequence_text(name: Seq<char>) -> Option<Seq<char>> {
    if name == "ENTER"@ {
        Some("\r"@)
    } else if name == "TAB"@ {
        Some("\t"@)
    } else if name == "BTAB"@ || name == "BACKTAB"@ {
        Some("\x1b[Z"@)
    } else if name == "ESCAPE"@ || name == "ESC"@ {
        Some("\x1b"@)
    } else if name == "SPACE"@ {
        Some(" "@)
    } else if name == "BSPACE"@ || name == "BACKSPACE"@ {
        Some("\x7f"@)
    } else if name == "UP"@ {
        Some("\x1b[A"@)
    } else if name == "DOWN"@ {
        Some("\x1b[B"@)
    } else if name == "RIGHT"@ {
        Some("\x1b[C"@)
    } else if name == "LEFT"@ {
        Some("\x1b[D"@)
    } else if name == "HOME"@ {
        Some("\x1b[H"@)
    } else if name == "END"@ {
        Some("\x1b[F"@)
    } else if name == "PAGEUP"@ || name == "PPAGE"@ {
        Some("\x1b[5~"@)
    } else if name == "PAGEDOWN"@ || name == "NPAGE"@ {
        Some("\x1b[6~"@)
    } else if name == "DELETE"@ || name == "DC"@ {
        Some("\x1b[3~"@)
    } else if name == "INSERT"@ || name == "IC"@ {
        Some("\x1b[2~"@)
    } else if name == "F1"@ {
        Some("\x1bOP"@)
    } else if name == "F2"@ {
        Some("\x1bOQ"@)
    } else if name == "F3"@ {
        Some("\x1bOR"@)
    } else if name == "F4"@ {
        Some("\x1bOS"@)
    } else if name == "F5"@ {
        Some("\x1b[15~"@)
    } else if name == "F6"@ {
        Some("\x1b[17~"@)
    } else if name == "F7"@ {
        Some("\x1b[18~"@)
    } else if name == "F8"@ {
        Some("\x1b[19~"@)
    } else if name == "F9"@ {
        Some("\x1b[20~"@)
    } else if name == "F10"@ {
        Some("\x1b[21~"@)
    } else if name == "F11"@ {
        Some("\x1b[23~"@)
    } else if name == "F12"@ {
        Some("\x1b[24~"@)
    } else {
        None
    }
}

/// What is sent for a key with a name of its own, given in capitals.
pub fn key_sequence(name: &str) -> (r: Option<&'static str>)
    ensures
        (match r {
            Some(s) => Some(s@),
            None => None,
        }) == key_sequence_text(name@),
{
    if same(name, "ENTER") {
        Some("\r")
    } else if same(name, "TAB") {
        Some("\t")
    } else if same(name, "BTAB") || same(name, "BACKTAB") {
        Some("\x1b[Z")
    } else if same(name, "ESCAPE") || same(name, "ESC") {
        Some("\x1b")
    } else if same(name, "SPACE") {
        Some(" ")
    } else if same(name, "BSPACE") || same(name, "BACKSPACE") {
        Some("\x7f")
    } else if same(name, "UP") {
        Some("\x1b[A")
    } else if same(name, "DOWN") {
        Some("\x1b[B")
    } else if same(name, "RIGHT") {
        Some("\x1b[C")
    } else if same(name, "LEFT") {
        Some("\x1b[D")
    } else if same(name, "HOME") {
        Some("\x1b[H")
    } else if same(name, "END") {
        Some("\x1b[F")
    } else if same(name, "PAGEUP") || same(name, "PPAGE") {
        Some("\x1b[5~")
    } else if same(name, "PAGEDOWN") || same(name, "NPAGE") {
        Some("\x1b[6~")
    } else if same(name, "DELETE") || same(name, "DC") {
        Some("\x1b[3~")
    } else if same(name, "INSERT") || same(name, "IC") {
        Some("\x1b[2~")
    } else if same(name, "F1") {
        Some("\x1bOP")
    } else if same(name, "F2") {
        Some("\x1bOQ")
    } else if same(name, "F3") {
        Some("\x1bOR")
    } else if same(name, "F4") {
        Some("\x1bOS")
    } else if same(name, "F5") {
        Some("\x1b[15~")
    } else if same(name, "F6") {
        Some("\x1b[17~")
    } else if same(name, "F7") {
        Some("\x1b[18~")
    } else if same(name, "F8") {
        Some("\x1b[19~")
    } else if same(name, "F9") {
        Some("\x1b[20~")
    } else if same(name, "F10") {
        Some("\x1b[21~")
    } else if same(name, "F11") {
        Some("\x1b[23~")
    } else if same(name, "F12") {
        Some("\x1b[24~")
    } else {
        None
    }
}

/// What a key with a name of its own, given in capitals, is called while text is
/// copied.
pub open spec fn copy_key_name_text(name: Seq<char>) -> Option<Seq<char>> {
    if name == "ENTER"@ {
        Some("enter"@)
    } else if name == "TAB"@ {
        Some("tab"@)
    } else if name == "BTAB"@ || name == "BACKTAB"@ {
        Some("btab"@)
    } else if name == "ESCAPE"@ || name == "ESC"@ {
        Some("esc"@)
    } else if name == "SPACE"@ {
        Some("space"@)
    } else if name == "BSPACE"@ || name == "BACKSPACE"@ {
        Some("backspace"@)
    } else if name == "UP"@ {
        Some("up"@)
    } else if name == "DOWN"@ {
        Some("down"@)
    } else if name == "RIGHT"@ {
        Some("right"@)
    } else if name == "LEFT"@ {
        Some("left"@)
    } else if name == "HOME"@ {
        Some("home"@)
    } else if name == "END"@ {
        Some("end"@)
    } else if name == "PAGEUP"@ || name == "PPAGE"@ {
        Some("pageup"@)
    } else if name == "PAGEDOWN"@ || name == "NPAGE"@ {
        Some("pagedown"@)
    } else if name == "DELETE"@ || name == "DC"@ {
        Some("delete"@)
    } else if name == "INSERT"@ || name == "IC"@ {
        Some("insert"@)
    } else {
        None
    }
}

/// What a key with a name of its own, given in capitals, is called while text is
/// copied.
pub fn copy_key_name(name: &str) -> (r: Option<&'static str>)
    ensures
        (match r {
            Some(s) => Some(s@),
            None => None,
        }) == copy_key_name_text(name@),
{
    if same(name, "ENTER") {
        Some("enter")
    } else if same(name, "TAB") {
        Some("tab")
    } else if same(name, "BTAB") || same(name, "BACKTAB") {
        Some("btab")
    } else if same(name, "ESCAPE") || same(name, "ESC") {
        Some("esc")
    } else if same(name, "SPACE") {
        Some("space")
    } else if same(name, "BSPACE") || same(name, "BACKSPACE") {
        Some("backspace")
    } else if same(name, "UP") {
        Some("up")
    } else if same(name, "DOWN") {
        Some("down")
    } else if same(name, "RIGHT") {
        Some("right")
    } else if same(name, "LEFT") {
        Some("left")
    } else if same(name, "HOME") {
        Some("home")
    } else if same(name, "END") {
        Some("end")
    } else if same(name, "PAGEUP") || same(name, "PPAGE") {
        Some("pageup")
    } else if same(name, "PAGEDOWN") || same(name, "NPAGE") {
        Some("pagedown")
    } else if same(name, "DELETE") || same(name, "DC") {
        Some("delete")
    } else if same(name, "INSERT") || same(name, "IC") {
        Some("insert")
    } else {
        None
    }
}

/// Whether a word, given in capitals, names a key rather than text.
pub open spec fn names_key(upper: Seq<char>) -> bool {
    key_sequence_text(upper) is Some || has_prefix(upper, "C-"@) || has_prefix(upper, "M-"@)
        || has_prefix(upper, "S-"@)
}

/// Whether a word, given in capitals, names a key rather than text.
pub fn is_key_name(upper: &str) -> (r: bool)
    ensures
        r == names_key(upper@),
{
    key_sequence(upper).is_some() || starts_with(upper, "C-") || starts_with(upper, "M-")
        || starts_with(upper, "S-")
}

/// What is done for one of the keys.
pub struct KeyOutput {
    /// What is sent to the pane, one after the other.
    pub texts: Vec<String>,
    /// Interrupt the pane's processes too.
    pub interrupt: bool,
}

/// A control key as the sequence that carries its virtual key, its scan code, its
/// character and the control key's state, pressed and released.
pub open spec fn win32_key(vk: u16, scan: u16, c: char) -> Seq<char> {
    win32_half(vk, scan, c, 1) + win32_half(vk, scan, c, 0)
}

/// One half of such a sequence.
pub open spec fn win32_half(vk: u16, scan: u16, c: char, down: nat) -> Seq<char> {
    "\x1b["@ + decimal(vk as nat) + seq![';'] + decimal(scan as nat) + seq![';'] + decimal(
        ((lowered_ascii(c) as u32) & 0x1F) as nat,
    ) + seq![';'] + decimal(down) + ";8;1_"@
}

/// The character at a position, if there is one.
pub open spec fn nth_char(s: Seq<char>, i: int) -> Option<char> {
    if 0 <= i < s.len() {
        Some(s[i])
    } else {
        None
    }
}

/// Whether a character is an ASCII letter.
pub open spec fn is_letter(c: char) -> bool {
    ('a' <= c && c <= 'z') || ('A' <= c && c <= 'Z')
}

/// The control character that is asked for by a key, given as it is and in
/// capitals: behind `C-M-` as it is, behind `C-` in capitals.
pub open spec fn control_char(key: Seq<char>, upper: Seq<char>) -> Option<char> {
    if has_prefix(upper, "C-M-"@) {
        nth_char(key, 4)
    } else if has_prefix(upper, "C-"@) {
        nth_char(upper, 2)
    } else {
        None
    }
}

/// The texts that are sent for a key. `modified` is the sequence of a special key
/// with modifiers, if it is one; `ctrl` the byte of its control character, if it
/// has one; `codes` its virtual key and scan code where the console takes those;
/// `next` the word behind it, in capitals.
pub open spec fn key_texts(
    key: Seq<char>,
    upper: Seq<char>,
    modified: Option<Seq<char>>,
    ctrl: Option<u8>,
    codes: Option<(u16, u16)>,
    next: Option<Seq<char>>,
) -> Seq<Seq<char>> {
    if key_sequence_text(upper) is Some {
        seq![key_sequence_text(upper)->0]
    } else if modified is Some {
        seq![modified->0]
    } else if has_prefix(upper, "C-M-"@) {
        if nth_char(key, 4) is Some && ctrl is Some {
            seq![seq!['\x1b', ctrl->0 as char]]
        } else {
            Seq::empty()
        }
    } else if has_prefix(upper, "C-"@) {
        if nth_char(upper, 2) is Some && ctrl is Some {
            let c = nth_char(upper, 2)->0;
            if codes is Some && is_letter(c) {
                seq![win32_key((codes->0).0, (codes->0).1, c)]
            } else {
                seq![seq![ctrl->0 as char]]
            }
        } else {
            Seq::empty()
        }
    } else if has_prefix(upper, "M-"@) {
        match nth_char(key, 2) {
            Some(c) => seq![seq!['\x1b', c]],
            None => Seq::empty(),
        }
    } else if next is Some && !names_key(next->0) {
        seq![key, seq![' ']]
    } else {
        seq![key]
    }
}

/// Whether a key interrupts the pane's processes: it is the control character for
/// that, on a console.
pub open spec fn key_interrupts(
    upper: Seq<char>,
    modified: Option<Seq<char>>,
    ctrl: Option<u8>,
    codes: Option<(u16, u16)>,
) -> bool {
    &&& key_sequence_text(upper) is None
    &&& modified is None
    &&& !has_prefix(upper, "C-M-"@)
    &&& has_prefix(upper, "C-"@)
    &&& nth_char(upper, 2) is Some
    &&& codes is Some
    &&& ctrl == Some(3u8)
}

fn one(s: String) -> (v: Vec<String>)
    ensures
        texts(v@) == seq![s@],
{
    let mut v: Vec<String> = Vec::new();
    v.push(s);
    assert(texts(v@) =~= seq![s@]);
    v
}

fn none() -> (v: Vec<String>)
    ensures
        texts(v@) == Seq::<Seq<char>>::empty(),
{
    let v: Vec<String> = Vec::new();
    assert(texts(v@) =~= Seq::<Seq<char>>::empty());
    v
}

fn push_half(s: &mut String, vk: u16, scan: u16, c: char, down: u64)
    ensures
        final(s)@ == old(s)@ + win32_half(vk, scan, c, down as nat),
{
    s.append("\x1b[");
    push_number(s, vk as u64);
    s.push(';');
    push_number(s, scan as u64);
    s.push(';');
    let unit: u32 = (lower_ascii(c) as u32) & 0x1F;
    push_number(s, unit as u64);
    s.push(';');
    push_number(s, down);
    s.append(";8;1_");
    assert(s@ =~= old(s)@ + win32_half(vk, scan, c, down as nat));
}

fn nth(s: &str, i: usize) -> (r: Option<char>)
    ensures
        r == nth_char(s@, i as int),
{
    let v = chars_of(s);
    if i < v.len() {
        Some(char_at(&v, i))
    } else {
        None
    }
}

/// The character whose control character is needed to send a key.
pub fn control_char_of(key: &str) -> (r: Option<char>)
    ensures
        r == control_char(key@, uppercase(key@)),
{
    let upper = key.to_uppercase();
    control_char_upper(key, upper.as_str())
}

/// The character whose control character is needed to send a key, given in capitals too.
pub fn control_char_upper(key: &str, u: &str) -> (r: Option<char>)
    ensures
        r == control_char(key@, u@),
{
    if starts_with(u, "C-M-") {
        nth(key, 4)
    } else if starts_with(u, "C-") {
        nth(u, 2)
    } else {
        None
    }
}

/// What is done for one of the keys, given the word behind it.
pub fn send_key(
    key: &str,
    next: &Option<String>,
    modified: &Option<String>,
    ctrl: Option<u8>,
    codes: Option<(u16, u16)>,
) -> (r: KeyOutput)
    ensures
        texts(r.texts@) == key_texts(
            key@,
            uppercase(key@),
            opt_text(*modified),
            ctrl,
            codes,
            match opt_text(*next) {
                Some(n) => Some(uppercase(n)),
                None => None,
            },
        ),
        r.interrupt == key_interrupts(uppercase(key@), opt_text(*modified), ctrl, codes),
{
    let upper = key.to_uppercase();
    let next_upper: Option<String> = match next {
        Some(n) => Some(n.as_str().to_uppercase()),
        None => None,
    };
    send_key_upper(key, upper.as_str(), &next_upper, modified, ctrl, codes)
}

/// What is done for one of the keys, given in capitals too, as is the word behind it.
pub fn send_key_upper(
    key: &str,
    u: &str,
    next_upper: &Option<String>,
    modified: &Option<String>,
    ctrl: Option<u8>,
    codes: Option<(u16, u16)>,
) -> (r: KeyOutput)
    ensures
        texts(r.texts@) == key_texts(
            key@,
            u@,
            opt_text(*modified),
            ctrl,
            codes,
            opt_text(*next_upper),
        ),
        r.interrupt == key_interrupts(u@, opt_text(*modified), ctrl, codes),
{
    if let Some(s) = key_sequence(u) {
        return KeyOutput { texts: one(s.to_owned()), interrupt: false };
    }
    if let Some(m) = modified {
        return KeyOutput { texts: one(m.clone()), interrupt: false };
    }
    if starts_with(u, "C-M-") {
        if let (Some(_), Some(b)) = (nth(key, 4), ctrl) {
            let mut s = String::new();
            s.push('\x1b');
            s.push(b as char);
            assert(s@ =~= seq!['\x1b', b as char]);
            return KeyOutput { texts: one(s), interrupt: false };
        }
        return KeyOutput { texts: none(), interrupt: false };
    }
    if starts_with(u, "C-") {
        if let (Some(c), Some(b)) = (nth(u, 2), ctrl) {
            let letter: bool = ('a' <= c && c <= 'z') || ('A' <= c && c <= 'Z');
            let interrupt: bool = b == 3 && codes.is_some();
            if let Some((vk, scan)) = codes {
                if letter {
                    let mut s = String::new();
                    push_half(&mut s, vk, scan, c, 1);
                    push_half(&mut s, vk, scan, c, 0);
                    assert(s@ =~= win32_key(vk, scan, c));
                    return KeyOutput { texts: one(s), interrupt };
                }
            }
            let mut s = String::new();
            s.push(b as char);
            assert(s@ =~= seq![b as char]);
            return KeyOutput { texts: one(s), interrupt };
        }
        let interrupt: bool = false;
        return KeyOutput { texts: none(), interrupt };
    }
    if starts_with(u, "M-") {
        if let Some(c) = nth(key, 2) {
            let mut s = String::new();
            s.push('\x1b');
            s.push(c);
            assert(s@ =~= seq!['\x1b', c]);
            return KeyOutput { texts: one(s), interrupt: false };
        }
        return KeyOutput { texts: none(), interrupt: false };
    }
    let mut v = one(key.to_owned());
    if let Some(n) = next_upper {
        if !is_key_name(n.as_str()) {
            let mut s = String::new();
            s.push(' ');
            assert(s@ =~= seq![' ']);
            let ghost before = texts(v@);
            v.push(s);
            assert(texts(v@) =~= before.push(seq![' ']));
            assert(texts(v@) =~= seq![key@, seq![' ']]);
        }
    }
    KeyOutput { texts: v, interrupt: false }
}

/// What is known of a key beside its name: the sequence of a special key with modifiers, the
/// byte of its control character, and its virtual key and scan code where the console takes
/// those.
pub struct KeyLookup {
    pub modified: Option<String>,
    pub ctrl: Option<u8>,
    pub codes: Option<(u16, u16)>,
}

/// The word behind one of the words, in capitals.
pub open spec fn next_in_capitals(words: Seq<Seq<char>>, i: int) -> Option<Seq<char>> {
    if i + 1 < words.len() {
        Some(uppercase(words[i + 1]))
    } else {
        None
    }
}

/// Whether this is what is done for one of the words.
pub open spec fn is_output(r: KeyOutput, words: Seq<Seq<char>>, l: KeyLookup, i: int) -> bool {
    &&& texts(r.texts@) == key_texts(
        words[i],
        uppercase(words[i]),
        opt_text(l.modified),
        l.ctrl,
        l.codes,
        next_in_capitals(words, i),
    )
    &&& r.interrupt == key_interrupts(uppercase(words[i]), opt_text(l.modified), l.ctrl, l.codes)
}

/// What is done for keys, each of them a word. Between words that name no keys, a space is
/// sent.
pub fn send_keys(keys: &Vec<String>, lookups: &Vec<KeyLookup>) -> (r: Vec<KeyOutput>)
    requires
        lookups@.len() == keys@.len(),
    ensures
        r@.len() == keys@.len(),
        forall|i: int| 0 <= i < r@.len() ==> is_output(#[trigger] r@[i], texts(keys@), lookups@[i], i),
{
    let mut r: Vec<KeyOutput> = Vec::new();
    let mut i: usize = 0;
    while i < keys.len()
        invariant
            i <= keys.len(),
            lookups@.len() == keys@.len(),
            r@.len() == i,
            forall|k: int| 0 <= k < i ==> is_output(#[trigger] r@[k], texts(keys@), lookups@[k], k),
        decreases keys.len() - i,
    {
        let next: Option<String> = if i + 1 < keys.len() {
            Some(keys[i + 1].clone())
        } else {
            None
        };
        let l = &lookups[i];
        let out = send_key(keys[i].as_str(), &next, &l.modified, l.ctrl, l.codes);
        assert(texts(keys@)[i as int] == keys@[i as int]@);
        assert(is_output(out, texts(keys@), lookups@[i as int], i as int));
        r.push(out);
        i += 1;
    }
    r
}

/// What a key comes to while text is copied.
pub enum CopyKey {
    /// A key of that mode.
    Key(String),
    /// Characters of that mode.
    Text(String),
}

/// Whether a word, given in capitals, is a function key: an F and digits.
pub open spec fn is_function_key(upper: Seq<char>) -> bool {
    upper.len() >= 2 && upper[0] == 'F' && all_digits(upper.skip(1))
}

fn function_key(u: &str) -> (r: bool)
    ensures
        r == is_function_key(u@),
{
    let v = chars_of(u);
    if v.len() < 2 || v[0] != 'F' {
        return false;
    }
    let mut i: usize = 1;
    while i < v.len()
        invariant
            1 <= i <= v.len(),
            v@ == u@,
            forall|k: int| 1 <= k < i ==> is_digit(#[trigger] v@[k]),
        decreases v.len() - i,
    {
        let c: char = v[i];
        if c < '0' || c > '9' {
            assert(!is_digit(u@.skip(1)[i - 1]));
            return false;
        }
        i += 1;
    }
    assert forall|k: int| 0 <= k < u@.skip(1).len() implies is_digit(
        #[trigger] u@.skip(1)[k],
    ) by {
        assert(u@.skip(1)[k] == v@[k + 1]);
    }
    true
}

/// Whether this is what a key comes to while text is copied, given in capitals and in small
/// letters too: a named key under the name that it has there, one with modifiers or a function
/// key in small letters, anything else as characters.
pub open spec fn is_copy_key(r: CopyKey, key: Seq<char>, upper: Seq<char>, lower: Seq<char>) -> bool {
    if copy_key_name_text(upper) is Some {
        r matches CopyKey::Key(s) && s@ == copy_key_name_text(upper)->0
    } else if has_prefix(upper, "C-"@) || has_prefix(upper, "M-"@) || is_function_key(upper) {
        r matches CopyKey::Key(s) && s@ == lower
    } else {
        r matches CopyKey::Text(s) && s@ == key
    }
}

/// What a key comes to while text is copied.
pub fn copy_mode_key(key: &str) -> (r: CopyKey)
    ensures
        is_copy_key(r, key@, uppercase(key@), lowercase(key@)),
{
    let upper = key.to_uppercase();
    let lower = key.to_lowercase();
    copy_mode_key_upper(key, upper.as_str(), lower)
}

/// What a key comes to while text is copied, given in capitals and in small letters too.
pub fn copy_mode_key_upper(key: &str, u: &str, lower: String) -> (r: CopyKey)
    ensures
        is_copy_key(r, key@, u@, lower@),
{
    if let Some(s) = copy_key_name(u) {
        return CopyKey::Key(s.to_owned());
    }
    if starts_with(u, "C-") || starts_with(u, "M-") || function_key(u) {
        return CopyKey::Key(lower);
    }
    CopyKey::Text(key.to_owned())
}

} // verus!
