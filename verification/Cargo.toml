[package]
name = "chunk_source"
version = "0.1.0"
edition = "2021"
publish = false

[dependencies]
axum = "0.6"
http-body = "0.4"
hyper = "0.14"
tokio = { version = "1", features = ["macros", "rt-multi-thread"] }
