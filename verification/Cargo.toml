[package]
name = "arena_logic"
version = "0.1.0"
edition = "2021"
publish = false

[dependencies]
spacetimedb = "=1.12.0"
spacetimedb-sdk = "=1.12.0"
godot = "=0.5.5"
tokio = { version = "=1.54.1", features = ["rt-multi-thread"] }
log = "=0.4.35"
