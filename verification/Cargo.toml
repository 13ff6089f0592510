[package]
name = "talos_splits"
version = "0.1.0"
edition = "2021"
publish = false

[dependencies]
livesplit-core = "*"
read-process-memory = "*"
notify = "*"
pancurses = "*"
serde = { version = "*", features = ["derive"] }
serde_yaml = "*"
chrono = "*"
timer = "*"
libc = "*"
x11 = "*"
procps-sys = "*"
