[package]
name = "bpfcontain"
version = "0.1.0"
edition = "2021"
publish = false

[dependencies]
anyhow = "=1.0.104"
glob = "=0.3.4"
jsonrpc-core = "=18.0.0"
jsonrpc-derive = "=18.0.0"
jsonrpc-pubsub = "=18.0.0"
libbpf-rs = "=0.19.1"
log = "=0.4.35"
object = "=0.40.0"
serde = { version = "=1.0.229", features = ["derive"] }
