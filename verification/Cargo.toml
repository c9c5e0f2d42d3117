[package]
name = "wrap-command"
version = "0.1.0"
edition = "2021"
publish = false

[dependencies]
clap = { version = "4", features = ["derive"] }
clap_complete = "4"
fs4 = { version = "0.13", features = ["sync"] }
fundu = "2"
nix = { version = "0.29", features = ["signal", "process"] }
ureq = "3"
wait-timeout = "0.2"
