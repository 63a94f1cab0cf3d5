//! Systems without a Windows console: nothing can be injected, nothing is known of
//! other processes, and the console needs no preparation.

use vstd::prelude::*;

verus! {

/// No output mode has to be set.
pub fn enable_virtual_terminal_processing() {
}

/// No input mode has to be set.
pub fn disable_vti_on_stdin() {
}

/// No control events have to be handled.
pub fn install_console_ctrl_handler() {
}

/// The standard output is fit to draw on.
pub fn prepare_tui_stdout() {
}

/// There is no caret to move.
pub fn update(_col: u16, _row: u16) {
}

/// There is no caret to destroy.
pub fn destroy() {
}

/// No mouse event is delivered.
pub fn send_mouse_event(
    _pid: u32,
    _col: i16,
    _row: i16,
    _btn: u32,
    _flags: u32,
    _reattach: bool,
) -> (r: bool)
    ensures
        !r,
{
    false
}

/// No sequence is delivered.
pub fn send_vt_sequence(_pid: u32, _sequence: &[u8]) -> (r: bool)
    ensures
        !r,
{
    false
}

/// No console can be asked.
pub fn query_vti_enabled(_pid: u32) -> (r: Option<bool>)
    ensures
        r is None,
{
    None
}

/// No interrupt is delivered.
pub fn send_ctrl_c_event(_pid: u32, _reattach: bool) -> (r: bool)
    ensures
        !r,
{
    false
}

/// No console can be asked.
pub fn query_mouse_input_enabled(_pid: u32) -> (r: Option<bool>)
    ensures
        r is None,
{
    None
}

/// No paste is delivered.
pub fn send_bracketed_paste(_pid: u32, _text: &str, _bracket: bool) -> (r: bool)
    ensures
        !r,
{
    false
}

/// No key is delivered.
pub fn send_modified_key_event(_pid: u32, _ch: char, _ctrl: bool, _alt: bool, _shift: bool) -> (r:
    bool)
    ensures
        !r,
{
    false
}

/// No key is delivered.
pub fn send_alt_key_event(_pid: u32, _ch: char) -> (r: bool)
    ensures
        !r,
{
    false
}

/// No key is delivered.
pub fn send_modified_enter_event(_pid: u32, _ctrl: bool, _alt: bool, _shift: bool) -> (r: bool)
    ensures
        !r,
{
    false
}

/// No character has a virtual key.
pub fn char_to_vk(_ch: char) -> (r: u16)
    ensures
        r == 0,
{
    0
}

/// No virtual key has a scan code.
pub fn vk_to_scan(_vk: u16) -> (r: u16)
    ensures
        r == 0,
{
    0
}

/// No process is known by name.
pub fn get_process_name(_pid: u32) -> (r: Option<String>)
    ensures
        r is None,
{
    None
}

/// No process's directory is known.
pub fn get_process_cwd(_pid: u32) -> (r: Option<String>)
    ensures
        r is None,
{
    None
}

/// No foreground process is known.
pub fn get_foreground_process_name(_pid: u32) -> (r: Option<String>)
    ensures
        r is None,
{
    None
}

/// No foreground process's directory is known.
pub fn get_foreground_cwd(_pid: u32) -> (r: Option<String>)
    ensures
        r is None,
{
    None
}

/// No process is known to pass the terminal on.
pub fn has_vt_bridge_descendant(_root_pid: u32) -> (r: bool)
    ensures
        !r,
{
    false
}

} // verus!
