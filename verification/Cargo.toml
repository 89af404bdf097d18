[package]
name = "dotlinks"
version = "0.1.0"
edition = "2021"
publish = false

[dependencies]
chrono = "=0.4.45"
cmd_lib = "=2.0.1"
color-eyre = "=0.6.5"
dirs = "=7.0.0"
tracing = "=0.1.44"
tracing-error = "=0.2.1"
tracing-subscriber = { version = "=0.3.23", features = ["env-filter"] }
xdg = "=3.0.0"
