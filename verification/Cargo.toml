[package]
name = "hyperlight-nanvix"
version = "0.1.0"
edition = "2021"
publish = false

[dependencies]
anyhow = "1.0.104"
clap = { version = "4.5.61", features = ["derive"] }
tokio = { version = "1.47.5", features = ["macros", "rt-multi-thread"] }
pyo3 = "=0.20.3"
pyo3-asyncio = { version = "=0.20.0", features = ["tokio-runtime"] }
