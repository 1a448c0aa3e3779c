[package]
name = "repohost"
version = "0.1.0"
edition = "2021"
publish = false

[dependencies]
git2 = { version = "*", default-features = false }
serde = { version = "*", features = ["derive"] }
serde_json = "*"
async-fs = "*"
axum = "0.6"
axum-macros = "0.3"
tokio = { version = "1", features = ["macros", "rt-multi-thread"] }
