[package]
name = "openapi_scaffold"
version = "0.1.0"
edition = "2021"
publish = false

[dependencies]
cargo-make = { version = "0.36", default-features = false }
fs-err = { version = "2", features = ["tokio"] }
futures = "0.3"
serde = { version = "1", features = ["derive"] }
serde_yaml = "0.9"
thiserror = "1"
tokio = { version = "1", features = ["fs", "process", "rt", "macros"] }
toml = "0.7"
