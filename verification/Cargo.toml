[package]
name = "pawn_runtime"
version = "0.1.0"
edition = "2021"
publish = false

[dependencies]
wasmtime = "=48.0.5"
wasmtime-wasi = "=48.0.5"
wasmtime-wasi-http = "=48.0.5"
serde = { version = "*", features = ["derive"] }
serde_json = "*"
toml = "*"
tokio = { version = "*", features = ["rt", "time"] }
