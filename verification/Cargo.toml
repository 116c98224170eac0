[package]
name = "spawn_ptrace"
version = "0.1.0"
edition = "2021"
publish = false

[dependencies]
nix = { version = "*", features = ["process", "ptrace", "signal"] }
