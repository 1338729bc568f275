[package]
name = "illya"
version = "0.1.0"
edition = "2021"
publish = false

[dependencies]
tabwriter = "=1.4.1"
clap = "=3.2.25"
nix = "=0.23.2"
serde = { version = "=1.0.229", features = ["derive"] }
serde_json = "=1.0.154"
chrono = "=0.4.45"
log = "=0.4.35"
wasmtime = "36"
wasmtime-wasi = "36"
