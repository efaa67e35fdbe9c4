[package]
name = "tuis"
version = "0.1.0"
edition = "2021"
publish = false

[dependencies]
anyhow = "=1.0.104"
crossterm = "=0.27.0"
math-parse = "=1.0.2"
rand = "=0.8.8"
ratatui = "0.25"
