[package]
name = "r2wc"
version = "0.1.0"
edition = "2021"
publish = false

[dependencies]
stopwatch = "0.0.7"
chrono = "0.4"
ncurses = "5"
