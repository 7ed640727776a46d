[package]
name = "dmitui"
version = "0.1.0"
edition = "2021"
publish = false

[dependencies]
anyhow = "1"
clap = "4"
crossterm = "0.28"
libc = "0.2"
ratatui = "0.29"
uuid = "1"
