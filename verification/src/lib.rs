//! The core of a terminal multiplexer: what its command line means, what its server does with
//! each request, and how it talks to consoles and processes. Everything here is a function of
//! plain values; the calls to the system are made around it.

pub mod cli;
pub mod color;
pub mod dict;
pub mod platform;
pub mod server;
pub mod text;
pub mod utf16;
