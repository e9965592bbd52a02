[package]
name = "kawari"
version = "0.1.0"
edition = "2021"
publish = false

[dependencies]
fastrand = "*"
physis = "*"
icarus = "*"
mlua = { version = "*", features = ["lua54", "vendored"] }
serde = { version = "*", features = ["derive"] }
tokio = { version = "*", features = ["rt-multi-thread", "macros", "net", "io-util", "sync", "time"] }
tracing = "*"
