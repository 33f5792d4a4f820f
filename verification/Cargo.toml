[package]
name = "order_picker"
version = "0.1.0"
edition = "2021"
publish = false

[dependencies]
alloy = { version = "=1.0.42", default-features = false, features = ["std", "network", "providers"] }
anyhow = "1"
moka = { version = "0.12", features = ["future"] }
thiserror = "2"
tokio = { version = "1", features = ["macros", "rt", "sync", "time"] }
tokio-util = "0.7"
tracing = "0.1"
