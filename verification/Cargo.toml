[package]
name = "actor_core"
version = "0.1.0"
edition = "2021"
publish = false

[dependencies]
slab = "*"
tokio = { version = "*", features = ["sync", "rt", "time", "macros"] }
futures-util = "*"
