[package]
name = "potoo"
version = "0.1.0"
edition = "2021"
publish = false

[dependencies]
bevy = { version = "=0.9.1", default-features = false }
bevy_editor_pls = "=0.2.0"
codegen = "=0.2.0"
mini-redis = "=0.4.1"
proc-macro2 = "=1.0.107"
rust-format = { version = "=0.3.4", features = ["pretty_please"] }
serde = { version = "=1.0.229", features = ["derive"] }
serde_json = "=1.0.154"
syn = { version = "=2.0.119", features = ["full"] }
tokio = { version = "=1.54.1", features = ["full"] }
undo = "=0.49.0"
