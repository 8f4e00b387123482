[package]
name = "subgraph_debug"
version = "0.1.0"
edition = "2021"
publish = false

[dependencies]
anyhow = "=1.0.104"
async-trait = "=0.1.92"
ethabi = "=14.1.0"
prometheus = { version = "=0.13.4", default-features = false }
serde_yaml = "=0.8.26"
slog = "=2.7.0"
