[package]
name = "narwhal_evm"
version = "0.1.0"
edition = "2021"
publish = false

[dependencies]
bincode = "=1.3.3"
serde = { version = "=1.0.229", features = ["derive"] }
serde_json = "=1.0.154"
ethers-core = "=2.0.14"
ethers-providers = { version = "=2.0.14", default-features = false }
tokio = { version = "=1.54.1", features = ["full"] }
tokio-util = { version = "=0.7.20", features = ["codec"] }
futures = "=0.3.34"
bytes = "=1.12.1"
warp = { version = "=0.3.7", default-features = false }
reqwest = { version = "=0.11.27", default-features = false, features = ["json"] }
tendermint-proto = "=0.28.0"
tendermint-abci = { version = "=0.28.0", default-features = false, features = ["client"] }
rocksdb = { version = "=0.18.0", default-features = false }
clap = { version = "=3.2.25", features = ["derive", "cargo"] }
env_logger = "=0.9.3"
log = "=0.4.35"
eyre = "=0.6.14"
anyhow = "=1.0.104"
once_cell = "=1.21.4"
yansi = "=0.5.1"
tracing-subscriber = { version = "=0.3.23", features = ["env-filter"] }
tracing-error = "=0.2.1"
