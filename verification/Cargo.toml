[package]
name = "ircd_proto"
version = "0.1.0"
edition = "2021"
publish = false

[dependencies]
anyhow = "1"
futures = "0.3"
irc = { version = "*", default-features = false }
log = "0.4"
tokio = { version = "1", features = ["net", "sync", "rt", "macros"] }
tokio-util = { version = "*", features = ["codec"] }
