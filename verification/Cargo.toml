[package]
name = "sysreport"
version = "0.1.0"
edition = "2021"
publish = false

[dependencies]
axum = "0.6"
tokio = { version = "1", features = ["macros", "process", "rt-multi-thread"] }
