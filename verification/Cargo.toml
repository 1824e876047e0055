[package]
name = "csv_tui"
version = "0.1.0"
edition = "2021"
publish = false

[dependencies]
csv = "=1.4.0"
crossterm = "=0.25.0"
tui = "=0.19.0"
