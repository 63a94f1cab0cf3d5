//! Sizes of panes and of what is laid over them.

use vstd::prelude::*;
use crate::text::{
    byte_count, byte_len, chars_of, ends_with, has_suffix, lines, number, parse_number, range_text, same,
    split_lines, texts,
};

verus! {

/// The size that a text asks for: a number of cells, or a percentage of what there is.
pub open spec fn popup_dim(spec_text: Seq<char>, available: u16, default: u16) -> u16 {
    if has_suffix(spec_text, "%"@) {
        match number(spec_text.drop_last(), 0xFFFF) {
            Some(p) => (available * (if p < 100 {
                p
            } else {
                100
            }) / 100) as u16,
            None => default,
        }
    } else {
        match number(spec_text, 0xFFFF) {
            Some(n) => n as u16,
            None => default,
        }
    }
}

/// The size that a text asks for: a number of cells, or a percentage of what there is.
pub fn parse_popup_dim(spec_text: &str, available: u16, default: u16) -> (r: u16)
    ensures
        r == popup_dim(spec_text@, available, default),
{
    if ends_with(spec_text, "%") {
        let v = chars_of(spec_text);
        proof {
            reveal_strlit("%");
        }
        let front = range_text(&v, 0, v.len() - 1);
        assert(front@ =~= spec_text@.drop_last());
        match parse_number(front.as_str(), 0xFFFF) {
            Some(p) => {
                let percent: u64 = if p < 100 { p } else { 100 };
                proof {
                    assert(available * percent / 100 <= available) by (nonlinear_arith)
                        requires
                            percent <= 100,
                    ;
                    assert(0 <= available * percent <= 65535 * 100) by (nonlinear_arith)
                        requires
                            percent <= 100,
                            0 <= available <= 65535,
                    ;
                }
                (available as u64 * percent / 100) as u16
            },
            None => default,
        }
    } else {
        match parse_number(spec_text, 0xFFFF) {
            Some(n) => n as u16,
            None => default,
        }
    }
}

/// A number that is no smaller than one and no larger than ninety-nine.
pub open spec fn one_to_ninety_nine(n: int) -> int {
    if n < 1 {
        1
    } else if n > 99 {
        99
    } else {
        n
    }
}

/// How much of a split the new pane takes, in percent. `value` is a percentage, or a
/// number of cells of `total`.
pub open spec fn split_percent(value: u16, is_percent: bool, total: u16) -> int {
    if is_percent {
        one_to_ninety_nine(value as int)
    } else if total > 0 {
        one_to_ninety_nine(value * 100 / total as int)
    } else {
        50
    }
}

/// The sizes of the two halves of a split, in percent.
pub fn split_sizes(value: u16, is_percent: bool, total: u16) -> (r: (u16, u16))
    ensures
        r.1 == split_percent(value, is_percent, total),
        r.0 == 100 - r.1,
{
    let percent: u16 = if is_percent {
        if value < 1 {
            1
        } else if value > 99 {
            99
        } else {
            value
        }
    } else if total > 0 {
        let share: u32 = value as u32 * 100 / total as u32;
        if share < 1 {
            1
        } else if share > 99 {
            99
        } else {
            share as u16
        }
    } else {
        50
    };
    (100 - percent, percent)
}

/// Neither half of a split is lost.
pub proof fn both_halves_stay(value: u16, is_percent: bool, total: u16)
    ensures
        1 <= split_percent(value, is_percent, total) <= 99,
{
}

/// A size in cells, from a percentage of what there is; one cell at least.
pub open spec fn percent_of(total: u16, percent: u16) -> int {
    let n = total * percent / 100;
    if n < 1 {
        1
    } else {
        n
    }
}

/// The size that a pane gets in percent of the window: of its width on the axis `x`, else
/// of its height. The result is taken modulo 2^16, as cells are counted.
pub fn resize_percent(axis: &str, percent: u16, width: u16, height: u16) -> (r: u16)
    ensures
        r == percent_of(
            if axis@ == "x"@ {
                width
            } else {
                height
            },
            percent,
        ) % 0x10000,
{
    let total: u16 = if same(axis, "x") { width } else { height };
    assert(0 <= total * percent <= 65535 * 65535) by (nonlinear_arith)
        requires
            0 <= total <= 65535,
            0 <= percent <= 65535,
    ;
    let n: u32 = total as u32 * percent as u32 / 100;
    let m: u32 = if n < 1 { 1 } else { n };
    assert(m as u16 == m % 0x10000) by (bit_vector);
    m as u16
}

/// How a pane is resized in a direction.
#[derive(Clone, Copy, PartialEq, Eq, Structural, Debug)]
pub enum ResizeStep {
    Vertical { amount: i16 },
    Horizontal { amount: i16 },
    Nothing,
}

/// An amount as it is counted in sixteen bits with a sign.
pub open spec fn with_sign(amount: u16) -> int {
    if amount < 0x8000 {
        amount as int
    } else {
        amount - 0x10000
    }
}

/// How a pane is resized: up and to the left it gets smaller by the amount.
pub open spec fn resize_step_of(direction: Seq<char>, amount: u16) -> ResizeStep {
    if direction == "U"@ {
        ResizeStep::Vertical { amount: (-with_sign(amount)) as i16 }
    } else if direction == "D"@ {
        ResizeStep::Vertical { amount: with_sign(amount) as i16 }
    } else if direction == "L"@ {
        ResizeStep::Horizontal { amount: (-with_sign(amount)) as i16 }
    } else if direction == "R"@ {
        ResizeStep::Horizontal { amount: with_sign(amount) as i16 }
    } else {
        ResizeStep::Nothing
    }
}

/// How a pane is resized: up and to the left it gets smaller by the amount.
pub fn resize_step(direction: &str, amount: u16) -> (r: ResizeStep)
    requires
        amount == 0x8000 ==> direction@ != "U"@ && direction@ != "L"@,
    ensures
        r == resize_step_of(direction@, amount),
{
    let cells: i16 = amount as i16;
    assert(amount as i16 == (if amount < 0x8000 {
        amount as int
    } else {
        amount - 0x10000
    })) by (bit_vector);
    if same(direction, "U") {
        ResizeStep::Vertical { amount: -cells }
    } else if same(direction, "D") {
        ResizeStep::Vertical { amount: cells }
    } else if same(direction, "L") {
        ResizeStep::Horizontal { amount: -cells }
    } else if same(direction, "R") {
        ResizeStep::Horizontal { amount: cells }
    } else {
        ResizeStep::Nothing
    }
}

/// The most bytes that one of the lines takes.
pub open spec fn longest(l: Seq<Seq<char>>) -> nat
    decreases l.len(),
{
    if l.len() == 0 {
        0
    } else {
        let rest = longest(l.drop_last());
        let n = byte_count(l.last()) as nat;
        if n > rest {
            n
        } else {
            rest
        }
    }
}

/// How wide a window with text is: as its longest line, but no less than twenty cells;
/// forty where there is no line. The frame takes four more. Cells are counted modulo 2^16.
pub open spec fn text_popup_width(text: Seq<char>) -> int {
    let l = lines(text);
    let w = if l.len() == 0 {
        40
    } else {
        longest(l)
    };
    (if w < 20 {
        20
    } else {
        w as int
    }) % 0x10000 + 4
}

/// How high a window with text is: as its lines and the frame, but no less than five. Cells
/// are counted modulo 2^16.
pub open spec fn text_popup_height(text: Seq<char>) -> int {
    let h = lines(text).len() % 0x10000 + 2;
    if h < 5 {
        5
    } else {
        h as int
    }
}

/// How wide and how high a window with text is, no wider than 120 cells and no higher than
/// `max_height`.
pub fn text_popup_size(text: &str, max_height: u16) -> (r: (u16, u16))
    requires
        text_popup_width(text@) <= 0xFFFF,
        text_popup_height(text@) <= 0xFFFF,
    ensures
        r.0 == (if text_popup_width(text@) < 120 {
            text_popup_width(text@)
        } else {
            120
        }),
        r.1 == (if text_popup_height(text@) < max_height {
            text_popup_height(text@)
        } else {
            max_height as int
        }),
{
    let l = split_lines(text);
    let ghost views = texts(l@);
    let mut wide: usize = 0;
    let mut i: usize = 0;
    while i < l.len()
        invariant
            i <= l.len(),
            views == texts(l@),
            wide == longest(views.take(i as int)),
        decreases l.len() - i,
    {
        let n: usize = byte_len(l[i].as_str());
        assert(views.take(i + 1).drop_last() =~= views.take(i as int));
        if n > wide {
            wide = n;
        }
        i += 1;
    }
    assert(views.take(i as int) =~= views);
    if l.len() == 0 {
        wide = 40;
    }
    if wide < 20 {
        wide = 20;
    }
    let width: usize = wide % 0x10000 + 4;
    let high: usize = l.len() % 0x10000 + 2;
    let height: u16 = if high < 5 { 5 } else { high as u16 };
    (
        if width < 120 {
            width as u16
        } else {
            120
        },
        if height < max_height {
            height
        } else {
            max_height
        },
    )
}

/// The size of what stands inside a frame.
pub fn inside_frame(width: u16, height: u16) -> (r: (u16, u16))
    ensures
        r.0 == (if width < 2 {
            0
        } else {
            width - 2
        }),
        r.1 == (if height < 2 {
            0
        } else {
            height - 2
        }),
{
    (
        if width < 2 {
            0
        } else {
            width - 2
        },
        if height < 2 {
            0
        } else {
            height - 2
        },
    )
}

/// The width of a pane among `count` panes that stand side by side. Of two panes the second takes
/// `percent` of the width where that is given; else all are as wide.
pub open spec fn width_of_pane(cols: u16, count: usize, place: usize, percent: Option<u16>) -> int {
    let share = match percent {
        Some(p) => if count != 2 {
            cols as int / (if count == 0 {
                1
            } else {
                count as int
            })
        } else if place == 1 {
            cols * (if p > 100 {
                100int
            } else {
                p as int
            }) / 100
        } else {
            cols * (if p > 100 {
                0int
            } else {
                100 - p
            }) / 100
        },
        None => cols as int / (if count == 0 {
            1
        } else {
            count as int
        }),
    };
    if share == 0 {
        1
    } else {
        share
    }
}

/// The width of a pane among panes that stand side by side: at least one column.
pub fn pane_width(cols: u16, count: usize, place: usize, percent: Option<u16>) -> (r: u16)
    ensures
        r == width_of_pane(cols, count, place, percent),
{
    let divisor: usize = if count == 0 { 1 } else { count };
    let part: u32 = match percent {
        Some(p) => if p > 100 { 100 } else { p as u32 },
        None => 0,
    };
    let taken: u32 = if place == 1 { part } else { 100 - part };
    proof {
        assert(cols as int * taken as int <= 65535 * 100) by (nonlinear_arith)
            requires
                cols <= 65535,
                taken <= 100,
        ;
        assert(0 <= cols as int / divisor as int <= cols) by (nonlinear_arith)
            requires
                divisor >= 1,
                0 <= cols,
        ;
        assert(cols as int * taken as int / 100 <= cols) by (nonlinear_arith)
            requires
                taken <= 100,
                0 <= cols,
        ;
        assert(0 <= cols as int * taken as int) by (nonlinear_arith)
            requires
                0 <= cols,
                0 <= taken,
        ;
    }
    let share: u16 = if percent.is_some() && count == 2 {
        (cols as u32 * taken / 100) as u16
    } else {
        (cols as usize / divisor) as u16
    };
    if share == 0 {
        1
    } else {
        share
    }
}

} // verus!
