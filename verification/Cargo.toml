[package]
name = "mini_docker"
version = "0.1.0"
edition = "2021"
publish = false

[dependencies]
nix = { version = "*", features = ["fs", "hostname", "mount", "process", "sched", "signal"] }
rtnetlink = "*"
futures = "*"
dbus = "*"
