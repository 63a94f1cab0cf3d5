//! The system caret, which tells other programs where text is typed.

use vstd::prelude::*;

verus! {

/// The size of a cell in pixels, given the font's where it could be read.
pub fn console_cell_size(font: Option<(i16, i16)>) -> (r: (i32, i32))
    ensures
        r.0 == (match font {
            Some(f) if f.0 > 0 => f.0 as i32,
            _ => 8i32,
        }),
        r.1 == (match font {
            Some(f) if f.1 > 0 => f.1 as i32,
            _ => 16i32,
        }),
        1 <= r.0 <= 0x7FFF,
        1 <= r.1 <= 0x7FFF,
{
    match font {
        Some(f) => (
            if f.0 > 0 { f.0 as i32 } else { 8 },
            if f.1 > 0 { f.1 as i32 } else { 16 },
        ),
        None => (8, 16),
    }
}

/// What is done to the caret.
#[derive(Clone, Copy, Debug)]
pub struct CaretUpdate {
    /// Create it first, of this size, and show it if that succeeds.
    pub create: Option<(i32, i32)>,
    /// Then move it here, in pixels.
    pub position: (i32, i32),
}

/// Moves the caret to a cell, and creates it before where there is none. Nothing
/// is done without a console window.
pub fn update(
    col: u16,
    row: u16,
    has_window: bool,
    created: bool,
    font: Option<(i16, i16)>,
) -> (r: Option<CaretUpdate>)
    ensures
        r is Some <==> has_window,
        r matches Some(u) ==> exists|w: i32, h: i32| #[trigger]
            cell_size(font, w, h) && u.create == (if created {
                None
            } else {
                Some((w, h))
            }) && u.position.0 == col * w && u.position.1 == row * h,
{
    if !has_window {
        return None;
    }
    let (w, h) = console_cell_size(font);
    assert(cell_size(font, w, h));
    assert(0 <= col * w <= 0xFFFF * 0x7FFF) by (nonlinear_arith)
        requires
            0 <= col <= 0xFFFF,
            1 <= w <= 0x7FFF,
    ;
    assert(0 <= row * h <= 0xFFFF * 0x7FFF) by (nonlinear_arith)
        requires
            0 <= row <= 0xFFFF,
            1 <= h <= 0x7FFF,
    ;
    Some(
        CaretUpdate {
            create: if created { None } else { Some((w, h)) },
            position: (col as i32 * w, row as i32 * h),
        },
    )
}

/// Whether a cell has this size in pixels.
pub open spec fn cell_size(font: Option<(i16, i16)>, w: i32, h: i32) -> bool {
    &&& w == (match font {
        Some(f) if f.0 > 0 => f.0 as i32,
        _ => 8i32,
    })
    &&& h == (match font {
        Some(f) if f.1 > 0 => f.1 as i32,
        _ => 16i32,
    })
}

/// Ends the caret: whether there is one to destroy. Afterwards there is none.
pub fn destroy(created: &mut bool) -> (r: bool)
    ensures
        r == *old(created),
        !*final(created),
{
    let was: bool = *created;
    *created = false;
    was
}

} // verus!
