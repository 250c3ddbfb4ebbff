[package]
name = "sfenimage"
version = "0.1.0"
edition = "2021"
publish = false

[dependencies]
regex = "1"
axum = "0.6"
log = "0.4"
once_cell = "1"
serde = { version = "1", features = ["derive"] }
simplelog = "0.12"
tokio = { version = "1", features = ["macros", "rt-multi-thread"] }
