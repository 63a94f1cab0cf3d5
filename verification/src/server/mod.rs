//! The server of a session: what its requests change, what they are answered, and
//! what is left to be done to the outside world.

pub mod buffers;
pub mod clients;
pub mod control_clients;
pub mod copy_commands;
pub mod copy_laws;
pub mod customize;
pub mod environment;
pub mod event_laws;
pub mod frame;
pub mod frame_laws;
pub mod key_laws;
pub mod key_tables;
pub mod main_loop;
pub mod option_laws;
pub mod options;
pub mod overlays;
pub mod pane_focus;
pub mod pane_tree;
pub mod panes;
pub mod plugins;
pub mod request_effects;
pub mod requests;
pub mod send_keys;
pub mod session;
pub mod sizes;
pub mod startup_log;
pub mod switch_client;
pub mod windows;
