[package]
name = "psyche_client"
version = "0.1.0"
edition = "2021"
publish = false

[dependencies]
tokenizers = { version = "*", default-features = false, features = ["onig"] }
tokio = { version = "1", features = ["rt-multi-thread", "macros", "sync", "fs"] }
tracing = "0.1"
thiserror = "*"
anyhow = "1"
serde_json = "1"
hf-hub = { version = "*", default-features = false, features = ["tokio"] }
