//! The program's own console: its modes, its control events, its output device,
//! and what its keyboard reports.

use vstd::prelude::*;

verus! {

pub const ENABLE_VIRTUAL_TERMINAL_PROCESSING: u32 = 0x0004;

pub const ENABLE_VIRTUAL_TERMINAL_INPUT: u32 = 0x0200;

/// The code page of UTF-8.
pub const CP_UTF8: u32 = 65001;

/// The output mode to set, given the one that could be read: escape sequences are
/// interpreted. None where the mode could not be read.
pub fn enable_virtual_terminal_processing(mode: Option<u32>) -> (r: Option<u32>)
    ensures
        r == (match mode {
            Some(m) => Some(m | ENABLE_VIRTUAL_TERMINAL_PROCESSING),
            None => None,
        }),
{
    match mode {
        Some(m) => Some(m | ENABLE_VIRTUAL_TERMINAL_PROCESSING),
        None => None,
    }
}

/// The input mode to set, given the one that could be read: terminal input off.
/// None where it is off already or the mode could not be read.
pub fn disable_vti_on_stdin(mode: Option<u32>) -> (r: Option<u32>)
    ensures
        r == (match mode {
            Some(m) => if m & ENABLE_VIRTUAL_TERMINAL_INPUT != 0 {
                Some(m & !ENABLE_VIRTUAL_TERMINAL_INPUT)
            } else {
                None
            },
            None => None,
        }),
{
    match mode {
        Some(m) => if m & ENABLE_VIRTUAL_TERMINAL_INPUT != 0 {
            Some(m & !ENABLE_VIRTUAL_TERMINAL_INPUT)
        } else {
            None
        },
        None => None,
    }
}

/// What a control event is answered: closing, logging off and shutting down are
/// handled here, so that they do not end the process; other events are passed on.
pub fn handle_ctrl_event(ctrl_type: u32) -> (r: i32)
    ensures
        r == (if ctrl_type == 2 || ctrl_type == 5 || ctrl_type == 6 {
            1i32
        } else {
            0i32
        }),
{
    if ctrl_type == 2 || ctrl_type == 5 || ctrl_type == 6 {
        1
    } else {
        0
    }
}

/// The device that output goes to where the standard output is no console.
pub fn console_output_device_name() -> (r: &'static str)
    ensures
        r@ == "CONOUT$"@,
{
    "CONOUT$"
}

/// Which handle output goes to.
#[derive(Clone, Copy, PartialEq, Eq, Structural, Debug)]
pub enum OutputHandle {
    /// The standard output.
    Standard,
    /// The console's output device, opened anew.
    Device,
}

/// Which handle output goes to: the standard output where it is a console or
/// where the console's output device could not be opened.
pub fn open_console_output_handle(standard_is_console: bool, device_opened: bool) -> (r:
    OutputHandle)
    ensures
        r == (if !standard_is_console && device_opened {
            OutputHandle::Device
        } else {
            OutputHandle::Standard
        }),
{
    if !standard_is_console && device_opened {
        OutputHandle::Device
    } else {
        OutputHandle::Standard
    }
}

/// Whether the standard output is replaced by the console's output: it is no
/// console itself, and the other one is.
pub fn prepare_tui_stdout(standard_is_console: bool, console_is_console: bool) -> (r: bool)
    ensures
        r == (!standard_is_console && console_is_console),
{
    !standard_is_console && console_is_console
}

/// The bits of the modifier keys of a key event.
pub const SHIFT: u8 = 0x01;

pub const CONTROL: u8 = 0x02;

pub const ALT: u8 = 0x04;

/// The modifiers of an Enter key as they are, given those that were reported and
/// the keys that are physically down. With shift down, shift is added, and control
/// and Alt are dropped where their keys are up. Any other key, and an Enter that
/// has shift already, is left as it is.
pub fn augment_enter_shift(
    is_enter: bool,
    modifiers: u8,
    shift_down: bool,
    ctrl_down: bool,
    alt_down: bool,
) -> (r: u8)
    ensures
        !is_enter || modifiers & SHIFT != 0 || !shift_down ==> r == modifiers,
        is_enter && shift_down ==> r & SHIFT != 0,
        is_enter && modifiers & SHIFT == 0 && shift_down ==> {
            &&& r & CONTROL == (if ctrl_down {
                modifiers & CONTROL
            } else {
                0
            })
            &&& r & ALT == (if alt_down {
                modifiers & ALT
            } else {
                0
            })
            &&& r & 0xF8 == modifiers & 0xF8
        },
{
    if !is_enter || modifiers & SHIFT != 0 || !shift_down {
        return modifiers;
    }
    let with_shift: u8 = modifiers | SHIFT;
    let kept: u8 = if ctrl_down { with_shift } else { with_shift & !CONTROL };
    let r: u8 = if alt_down { kept } else { kept & !ALT };
    proof {
        let m = modifiers;
        assert((m | 1u8) & 1u8 != 0 && (m | 1u8) & 2u8 == m & 2u8 && (m | 1u8) & 4u8 == m & 4u8 && (m
            | 1u8) & 0xF8u8 == m & 0xF8u8) by (bit_vector);
        let w = m | 1u8;
        assert((w & !2u8) & 1u8 == w & 1u8 && (w & !2u8) & 2u8 == 0 && (w & !2u8) & 4u8 == w & 4u8
            && (w & !2u8) & 0xF8u8 == w & 0xF8u8) by (bit_vector);
        let k = kept;
        assert((k & !4u8) & 1u8 == k & 1u8 && (k & !4u8) & 2u8 == k & 2u8 && (k & !4u8) & 4u8 == 0
            && (k & !4u8) & 0xF8u8 == k & 0xF8u8) by (bit_vector);
    }
    r
}

/// The low bits of the remote console's raw input mode, which are switched off:
/// processed input, line input and echo.
pub const COOKED_INPUT: u32 = 0x0007;

/// The input and output modes for a client that speaks in lines: input raw and
/// as terminal input, output interpreted and without automatic return.
pub fn raw_modes(input: u32, output: u32) -> (r: (u32, u32))
    ensures
        r.0 == (input & !COOKED_INPUT) | ENABLE_VIRTUAL_TERMINAL_INPUT,
        r.1 == output | ENABLE_VIRTUAL_TERMINAL_PROCESSING | 0x0008,
{
    (
        (input & !COOKED_INPUT) | ENABLE_VIRTUAL_TERMINAL_INPUT,
        output | ENABLE_VIRTUAL_TERMINAL_PROCESSING | 0x0008,
    )
}

} // verus!
