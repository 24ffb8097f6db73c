[package]
name = "fumen_render"
version = "0.1.0"
edition = "2021"
publish = false

[dependencies]
image = "*"
fumen = "*"
axum = "*"
tokio = { version = "*", features = ["macros", "rt-multi-thread", "net"] }
reqwest = { version = "*", default-features = false }
serde = { version = "*", features = ["derive"] }
serde_urlencoded = "*"
percent-encoding = "*"
url = "*"
dotenv = "*"
