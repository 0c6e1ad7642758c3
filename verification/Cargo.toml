[package]
name = "tabline"
version = "0.1.0"
edition = "2021"
publish = false

[dependencies]
ansi_term = "0.12"
chrono = { version = "0.4", features = ["unstable-locales"] }
chrono-tz = "*"
num_cpus = "1"
unicode-width = "0.1"
zellij-tile = "*"
zellij-tile-utils = "*"
