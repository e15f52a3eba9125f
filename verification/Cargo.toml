[package]
name = "termdef"
version = "0.1.0"
edition = "2021"
publish = false

[dependencies]
ratatui = "0.26"
crossterm = "0.27"
directories = "5"
color-eyre = "0.6"
tracing = "0.1"
tracing-error = "0.2"
tracing-subscriber = { version = "0.3", features = ["env-filter"] }
clap = { version = "4", features = ["derive"] }
better-panic = "0.3"
human-panic = "1"
strip-ansi-escapes = "0.2"
libc = "0.2"
log = "0.4"
lazy_static = "1"
typed-builder = "0.18"
