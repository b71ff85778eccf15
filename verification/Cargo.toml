[package]
name = "zinnia"
version = "0.1.0"
edition = "2021"
publish = false

[dependencies]
libp2p = { version = "0.52", default-features = false, features = ["tcp", "dns", "noise", "yamux", "ping", "identify", "tokio", "macros", "ed25519"] }
smallvec = "1"
tokio = { version = "1", features = ["rt", "macros", "sync", "fs", "io-util", "time"] }
serde = { version = "1", features = ["derive"] }
serde_json = "1"
serde_repr = "0.1"
chrono = "0.4"
termcolor = "1"
clap = { version = "4", features = ["derive", "env"] }
atomicwrites = "0.4"
log = "0.4"
env_logger = "0.10"
lassie = "*"
