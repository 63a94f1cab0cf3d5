//! What the program does with the operating system: every decision and every
//! value that goes into a system call.

pub mod caret;
pub mod console;
pub mod console_writer;
pub mod ime;
pub mod mouse_inject;
pub mod portable;
pub mod process_info;
pub mod process_kill;
pub mod spawn;
