[package]
name = "vmm_core"
version = "0.1.0"
edition = "2021"
publish = false

[dependencies]
byteorder = "1"
uuid = { version = "0.7", features = ["serde"] }
serde = { version = "1", features = ["derive"] }
serde_derive = "1"
error-chain = "0.12"
nix = "0.11"
libc = "0.2"
log = "0.4"
env_logger = "0.5"
mio = "0.6"
tokio = "0.1"
futures = "0.1"
