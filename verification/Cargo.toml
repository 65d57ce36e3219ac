[package]
name = "rhiza_ha"
version = "0.1.0"
edition = "2021"
publish = false

[dependencies]
axum = "*"
hyper = { version = "1", features = ["server", "http1", "http2"] }
hyper-util = { version = "0.1", features = ["server", "server-auto", "service", "tokio"] }
serde = { version = "1", features = ["derive"] }
serde_json = "1"
tokio = { version = "1", features = ["macros", "net", "rt", "rt-multi-thread", "sync", "time"] }
tower = { version = "0.5", features = ["util"] }
