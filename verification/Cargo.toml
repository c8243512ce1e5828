[package]
name = "pacc"
version = "0.2.3"
edition = "2021"
publish = false

[dependencies]
crossterm = "0.25"
libpulse-binding = "2"
tui = "0.19"
