[package]
name = "bear_lib_terminal"
version = "2.0.1"
edition = "2021"
publish = false

[dependencies]
bear-lib-terminal-sys = "*"
libc = "*"
