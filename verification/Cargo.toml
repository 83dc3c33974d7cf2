[package]
name = "llm_backend"
version = "0.1.0"
edition = "2021"
publish = false

[dependencies]
anyhow = "1"
axum = "0.7"
base64 = "*"
calamine = "*"
chrono = "0.4"
dirs = "5"
docx-rs = "*"
flate2 = "1"
futures-util = "0.3"
image = { version = "*", default-features = false, features = ["jpeg", "png", "gif", "bmp", "webp"] }
llama_cpp = "*"
once_cell = "1"
parking_lot = "0.12"
pdf-extract = "*"
regex = "1"
reqwest = { version = "*", features = ["json", "stream"] }
serde = { version = "1", features = ["derive"] }
serde_json = "1"
sha2 = "0.10"
tar = "0.4"
tokio = { version = "1", features = ["full"] }
uuid = { version = "1", features = ["v4"] }
walkdir = "2"
zip = "0.6"
