[package]
name = "psmux"
version = "0.1.0"
edition = "2021"
publish = false

[dependencies]
chrono = "0.4"
crossterm = "0.28"
glob = "0.3"
portable-pty = "0.9"
ratatui = "0.29"
vt100 = "0.15"
which = "*"
