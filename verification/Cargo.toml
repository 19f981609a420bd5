[package]
name = "hedera"
version = "0.1.0"
edition = "2021"
publish = false

[dependencies]
tonic = "=0.12.3"
prost = "=0.13.5"
time = "=0.3.55"
serde_json = "=1.0.151"
