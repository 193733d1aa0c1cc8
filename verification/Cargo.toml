[package]
name = "slumber"
version = "0.1.0"
edition = "2021"
publish = false

[dependencies]
anyhow = "1"
bytes = "1"
chrono = "0.4"
derive_more = { version = "1", features = ["debug", "deref", "display"] }
futures = "0.3"
indexmap = "2"
itertools = "0.13"
ratatui = "0.29"
reqwest = { version = "0.12", default-features = false, features = ["rustls-tls"] }
serde = { version = "1", features = ["derive"] }
strum = { version = "0.26", features = ["derive"] }
tokio = { version = "1", features = ["macros", "rt"] }
tracing = "0.1"
