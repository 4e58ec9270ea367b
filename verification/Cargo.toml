[package]
name = "conductor_gate"
version = "0.1.0"
edition = "2021"
publish = false

[dependencies]
holo_hash = "=0.2.8"
holochain_zome_types = "=0.2.8"
hdi = "=0.3.8"
rmp = "=0.8.14"
serde = { version = "=1.0.166", features = ["derive"] }
serde_json = "=1.0.109"
