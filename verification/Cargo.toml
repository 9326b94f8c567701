[package]
name = "gossip_node"
version = "0.1.0"
edition = "2021"
publish = false

[dependencies]
uuid = { version = "*", features = ["v4"] }
maelstrom-node = "*"
async-trait = "*"
async-std = "*"
serde = { version = "*", features = ["derive"] }
serde_json = "*"
