//! The command line: what its words ask for, and the lines that are sent to a
//! server for them.

pub mod command_laws;
pub mod commands;
pub mod control_mode;
pub mod dispatch;
pub mod dispatch_laws;
pub mod forward;
pub mod forward_laws;
pub mod global;
pub mod line;
pub mod new_session;
pub mod scripting;
pub mod scripting_laws;
pub mod server_args;
pub mod sessions;
pub mod settings;
pub mod word_laws;
pub mod words;
