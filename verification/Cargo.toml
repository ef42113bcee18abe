[package]
name = "hedera"
version = "0.1.0"
edition = "2021"
publish = false

[dependencies]
async-trait = "=0.1.92"
hedera-proto = { version = "=0.20.0", features = ["time_0_3"] }
rand = "=0.8.8"
serde = { version = "=1.0.229", features = ["derive"] }
serde_with = "=3.24.0"
time = "=0.3.55"
tonic = "=0.12.3"
