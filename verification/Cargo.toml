[package]
name = "ore_miner"
version = "0.1.0"
edition = "2021"
publish = false

[dependencies]
ore-api = "=2.7.0"
steel = "=2.1.1"
drillx = "=2.2.0"
solana-program = "=1.18.26"
solana-sdk = "=1.18.26"
spl-associated-token-account = "=2.3.0"
spl-token = "=4.0.3"
rand = "=0.8.8"
serde = { version = "=1.0.229", features = ["derive"] }
serde_json = "=1.0.154"
clap = { version = "=4.6.7", features = ["derive"] }
colored = "=2.2.0"
num_cpus = "=1.17.0"
log = "=0.4.35"
futures = "=0.3.34"
futures-util = "=0.3.34"
eyre = "=0.6.14"
tokio = { version = "=1.54.1", features = ["full"] }
