[package]
name = "aether_renderer_core"
version = "0.1.0"
edition = "2021"
publish = false

[dependencies]
glob = "0.3"
zip = { version = "0.6", default-features = false, features = ["deflate"] }
tempfile = "3"
serde = { version = "1", features = ["derive"] }
serde_json = "1"
clap = { version = "4", features = ["derive"] }
indicatif = "0.17"
