[package]
name = "graph_chain_cosmos"
version = "0.1.0"
edition = "2021"
publish = false

[dependencies]
anyhow = "1.0"
prost = "0.12"

[dev-dependencies]
base64 = "0.20"
