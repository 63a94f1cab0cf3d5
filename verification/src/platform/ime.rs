//! The input method editor, closed while a prefix key is awaited.

use vstd::prelude::*;

verus! {

/// Whether the editor was open and is closed now: `open` is its state where there
/// are a console window and an input context.
pub fn ime_disable(open: Option<bool>) -> (r: bool)
    ensures
        r <==> open == Some(true),
{
    match open {
        Some(o) => o,
        None => false,
    }
}

/// Whether the editor is opened again: where there are a console window and an
/// input context.
pub fn ime_restore(has_window: bool, has_context: bool) -> (r: bool)
    ensures
        r == (has_window && has_context),
{
    has_window && has_context
}

} // verus!
