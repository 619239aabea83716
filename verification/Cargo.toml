[package]
name = "doppio"
version = "0.1.0"
edition = "2021"
publish = false

[dependencies]
anyhow = "=1.0.104"
clap = { version = "=4.6.7", features = ["derive"] }
nix = { version = "=0.31.3", features = ["fs"] }
serde_json = { version = "=1.0.154", features = ["preserve_order"] }
tokio = { version = "=1.54.1", features = ["rt-multi-thread", "macros", "net", "io-util", "sync"] }
zbus = { version = "=6.1.0", default-features = false, features = ["tokio", "proxy"] }
