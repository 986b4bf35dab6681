[package]
name = "md_hardware"
version = "0.1.0"
edition = "2021"
publish = false

[dependencies]
crossterm = "0.28"
ratatui = "0.29"
sysinfo = "0.33"
tokio = { version = "1", features = ["rt-multi-thread", "macros", "time"] }
