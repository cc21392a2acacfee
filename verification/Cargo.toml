[package]
name = "hbbft_node"
version = "0.1.0"
edition = "2021"
publish = false

[dependencies]
bytes = "=0.4.12"
ethereum-types = "=0.12.1"
futures = "=0.1.31"
hbbft = "=0.1.1"
hyper = "=0.12.36"
hyper-rustls = "=0.17.1"
itertools = "=0.5.10"
keccak-hash = "=0.8.0"
log = "=0.4.35"
parity-crypto = { version = "=0.9.0", features = ["publickey"] }
parking_lot = "=0.9.0"
rand = "=0.6.5"
rlp = "=0.4.6"
rustc-hex = "=2.1.0"
serde = { version = "=1.0.229", features = ["derive"] }
serde_json = "=1.0.154"
tokio = "=0.1.22"
tokio-timer = "=0.1.2"
url = "=1.7.2"
