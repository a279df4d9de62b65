[package]
name = "contract_forge"
version = "0.1.0"
edition = "2021"
publish = false

[dependencies]
syn = { version = "=2.0.119", features = ["full", "visit"] }
quote = "=1.0.47"
proc-macro2 = "=1.0.107"
wasmtime = { version = "=45.0.3", default-features = false, features = ["std", "runtime", "cranelift"] }
toml = "=1.1.8"
serde = { version = "=1.0.229", features = ["derive"] }
serde_json = "=1.0.154"
blake3 = "=1.8.7"
clap = { version = "=4.6.7", features = ["derive"] }
clap_complete = "=4.6.11"
colored = "=3.1.1"
cargo_metadata = "=0.23.1"
thiserror = "=2.0.21"
