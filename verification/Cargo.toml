[package]
name = "await_modify_do"
version = "0.1.0"
edition = "2021"
publish = false

[dependencies]
crossbeam = "*"
devicons = "*"
notify = "*"
ratatui = "*"
sysinfo = "*"
which = "*"
