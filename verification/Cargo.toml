[package]
name = "rollup_prover"
version = "0.1.0"
edition = "2021"
publish = false

[dependencies]
c-kzg = "=2.1.8"
ethers-core = "=2.0.14"
hex = "=0.4.3"
serde = { version = "=1.0.229", features = ["derive"] }
serde_json = "=1.0.151"
serde_stacker = "=0.1.14"
revm = "=43.0.3"
