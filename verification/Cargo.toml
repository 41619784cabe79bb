[package]
name = "wasm_type_samples"
version = "0.1.0"
edition = "2021"
publish = false

[dependencies]
wasmparser = "0.77"
gimli = "0.24"
sha2 = "0.9"
rand = "0.8"
anyhow = "1"
clap = { version = "4", features = ["derive"] }
log = "0.4"
simplelog = "*"
walkdir = "2"
rayon = "1"
indicatif = { version = "*", features = ["rayon"] }
serde = { version = "1", features = ["derive"] }
serde_json = "1"
chrono = "0.4"
itertools = "*"
chashmap = "2"
thread-scoped = "1"
