[package]
name = "emjudge_judgecore"
version = "0.1.0"
edition = "2021"
publish = false

[dependencies]
config = "*"
libc = "*"
nix = "*"
serde = { version = "*", features = ["derive"] }
tempfile = "*"
tokio = { version = "*", features = ["fs", "io-util", "macros", "process", "rt", "time"] }
users = "*"
uuid = { version = "*", features = ["v4"] }
