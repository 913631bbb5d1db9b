[package]
name = "ynsrvcs"
version = "0.1.0"
edition = "2021"
publish = false

[dependencies]
anyhow = "=1.0.104"
dotenvy = "0.15"
fjall = "=3.1.13"
mimalloc = "0.1"
notify = "8"
reqwest = { version = "=0.12.28", default-features = false, features = ["json", "multipart", "rustls-tls"] }
serde = { version = "1", features = ["derive"] }
serde_json = "=1.0.154"
tokio = { version = "1", features = ["rt-multi-thread", "macros", "fs", "sync", "time", "signal"] }
tokio-stream = "0.1"
tracing = "0.1"
twilight-gateway = { version = "=0.17.1", default-features = false, features = ["rustls-webpki-roots"] }
twilight-model = "=0.17.1"
wasmtime = { version = "=44.0.3", default-features = false, features = ["async", "component-model", "cranelift", "runtime", "std"] }
wasmtime-wasi = { version = "=44.0.3", default-features = false, features = ["p2"] }
wit-bindgen = "*"
