[package]
name = "termdash"
version = "0.1.0"
edition = "2021"
publish = false

[dependencies]
crossterm = "0.25"
sysinfo = "0.29"
systemstat = "0.2"
termion = "2"
tokio = { version = "1", features = ["macros", "rt-multi-thread", "time"] }
tui = "0.19"
