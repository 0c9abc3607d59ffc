[package]
name = "akraz"
version = "0.5.6"
edition = "2021"
publish = false

[dependencies]
blake3 = "1"
data-encoding = "2"
ed25519-dalek = { version = "2", features = ["rand_core"] }
mdns-sd = "*"
rand_core = { version = "0.6", features = ["getrandom"] }
serde = { version = "1", features = ["derive"] }
serde_json = { version = "1", features = ["preserve_order"] }
uuid = { version = "1", features = ["v4"] }
