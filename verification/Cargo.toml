[package]
name = "cookie_board"
version = "0.1.0"
edition = "2021"
publish = false

[dependencies]
axum = "0.7"
axum-extra = { version = "0.9", features = ["cookie"] }
cargo-manifest = "*"
itertools = "0.13"
jsonwebtoken = "9"
leaky-bucket = "1"
rand = "0.8"
serde = { version = "1", features = ["derive"] }
serde_json = "1"
serde_yml = "*"
shuttle-axum = "0.49"
shuttle-runtime = "0.49"
tokio = { version = "1", features = ["sync"] }
toml = "0.8"
