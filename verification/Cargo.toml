[package]
name = "stream_control"
version = "0.1.0"
edition = "2021"
publish = false

[dependencies]
axum = "*"
chrono = "0.4"
clap = { version = "4", features = ["derive"] }
maud = { version = "*", features = ["axum"] }
reqwest = { version = "*", default-features = false }
serde = { version = "1", features = ["derive"] }
strum = { version = "*", features = ["derive"] }
thiserror = "*"
tokio = { version = "1", features = ["full"] }
toml = "*"
tracing = "0.1"
tracing-subscriber = "0.3"
typetag = "0.2"
zip = { version = "*", default-features = false }
