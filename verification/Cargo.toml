[package]
name = "actor_system"
version = "0.1.0"
edition = "2021"
publish = false

[dependencies]
async-trait = "*"
rand = "*"
tokio = { version = "*", features = ["rt-multi-thread", "macros", "sync", "time"] }
