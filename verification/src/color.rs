//! Colours of a terminal and the escape sequences that select them.

use vstd::prelude::*;
use crate::text::{decimal, push_number};

verus! {

/// A colour.
#[derive(Clone, Copy, PartialEq, Eq, Structural, Debug)]
pub enum Color {
    Reset,
    Black,
    Red,
    Green,
    Yellow,
    Blue,
    Magenta,
    Cyan,
    Gray,
    DarkGray,
    LightRed,
    LightGreen,
    LightYellow,
    LightBlue,
    LightMagenta,
    LightCyan,
    White,
    Rgb(u8, u8, u8),
    Indexed(u8),
}

/// The number of a colour of the standard palette: the dark ones first, then the
/// bright ones.
pub open spec fn palette_number(c: Color) -> Option<nat> {
    match c {
        Color::Black => Some(0),
        Color::Red => Some(1),
        Color::Green => Some(2),
        Color::Yellow => Some(3),
        Color::Blue => Some(4),
        Color::Magenta => Some(5),
        Color::Cyan => Some(6),
        Color::Gray => Some(7),
        Color::DarkGray => Some(8),
        Color::LightRed => Some(9),
        Color::LightGreen => Some(10),
        Color::LightYellow => Some(11),
        Color::LightBlue => Some(12),
        Color::LightMagenta => Some(13),
        Color::LightCyan => Some(14),
        Color::White => Some(15),
        _ => None,
    }
}

/// The code of a palette colour: dark ones from 30, bright ones from 90, and ten
/// more for the background.
pub open spec fn palette_code(n: nat, fg: bool) -> nat {
    (if n < 8 {
        30 + n
    } else {
        82 + n
    }) + (if fg {
        0nat
    } else {
        10
    })
}

/// The parameters that select a colour.
pub open spec fn color_params(c: Color, fg: bool) -> Seq<char> {
    let kind: nat = if fg {
        38
    } else {
        48
    };
    match c {
        Color::Reset => decimal(kind + 1),
        Color::Rgb(r, g, b) => decimal(kind) + ";2;"@ + decimal(r as nat) + seq![';'] + decimal(
            g as nat,
        ) + seq![';'] + decimal(b as nat),
        Color::Indexed(i) => decimal(kind) + ";5;"@ + decimal(i as nat),
        _ => decimal(palette_code(palette_number(c)->0, fg)),
    }
}

fn palette(c: Color) -> (r: Option<u64>)
    ensures
        r matches Some(n) ==> palette_number(c) == Some(n as nat) && n < 16,
        r is None ==> palette_number(c) is None,
{
    match c {
        Color::Black => Some(0),
        Color::Red => Some(1),
        Color::Green => Some(2),
        Color::Yellow => Some(3),
        Color::Blue => Some(4),
        Color::Magenta => Some(5),
        Color::Cyan => Some(6),
        Color::Gray => Some(7),
        Color::DarkGray => Some(8),
        Color::LightRed => Some(9),
        Color::LightGreen => Some(10),
        Color::LightYellow => Some(11),
        Color::LightBlue => Some(12),
        Color::LightMagenta => Some(13),
        Color::LightCyan => Some(14),
        Color::White => Some(15),
        _ => None,
    }
}

/// The escape sequence that selects a colour, for the foreground or for the
/// background.
pub fn color_to_ansi(c: Color, fg: bool) -> (r: String)
    ensures
        r@ == "\x1b["@ + color_params(c, fg) + seq!['m'],
{
    let mut s: String = "\x1b[".to_owned();
    let kind: u64 = if fg { 38 } else { 48 };
    let ghost head = s@;
    match c {
        Color::Reset => push_number(&mut s, kind + 1),
        Color::Rgb(r, g, b) => {
            push_number(&mut s, kind);
            s.append(";2;");
            push_number(&mut s, r as u64);
            s.push(';');
            push_number(&mut s, g as u64);
            s.push(';');
            push_number(&mut s, b as u64);
        },
        Color::Indexed(i) => {
            push_number(&mut s, kind);
            s.append(";5;");
            push_number(&mut s, i as u64);
        },
        _ => {
            if let Some(n) = palette(c) {
                let base: u64 = if n < 8 { 30 + n } else { 82 + n };
                push_number(&mut s, if fg { base } else { base + 10 });
            }
        },
    }
    assert(s@ =~= head + color_params(c, fg));
    s.push('m');
    s
}

/// What is written before a cell of a row: where either colour differs from that
/// of the cell before, everything is reset and both are selected anew.
pub open spec fn cell_prefix(
    last: (Option<Color>, Option<Color>),
    now: (Option<Color>, Option<Color>),
) -> Seq<char> {
    if last == now {
        Seq::empty()
    } else {
        "\x1b[0m"@ + (match now.0 {
            Some(c) => "\x1b["@ + color_params(c, true) + seq!['m'],
            None => Seq::empty(),
        }) + (match now.1 {
            Some(c) => "\x1b["@ + color_params(c, false) + seq!['m'],
            None => Seq::empty(),
        })
    }
}

fn same_color(a: Option<Color>, b: Option<Color>) -> (r: bool)
    ensures
        r == (a == b),
{
    match (a, b) {
        (Some(x), Some(y)) => x == y,
        (None, None) => true,
        _ => false,
    }
}

/// What is written before a cell of a row.
pub fn before_cell(
    last: (Option<Color>, Option<Color>),
    now: (Option<Color>, Option<Color>),
) -> (r: String)
    ensures
        r@ == cell_prefix(last, now),
{
    let mut s: String = String::new();
    if same_color(last.0, now.0) && same_color(last.1, now.1) {
        return s;
    }
    s.append("\x1b[0m");
    if let Some(c) = now.0 {
        let a = color_to_ansi(c, true);
        s.append(a.as_str());
    }
    if let Some(c) = now.1 {
        let a = color_to_ansi(c, false);
        s.append(a.as_str());
    }
    assert(s@ =~= cell_prefix(last, now));
    s
}

} // verus!
