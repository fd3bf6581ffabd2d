[package]
name = "optibridge"
version = "0.1.0"
edition = "2021"
publish = false

[dependencies]
image = { version = "=0.25.10", default-features = false, features = ["bmp", "gif", "ico", "jpeg", "png", "tiff", "webp"] }
sha1 = "=0.10.7"
hex = "=0.4.3"
uuid = { version = "=1.29.0", features = ["v4"] }
base64 = "=0.22.1"
chrono = "=0.4.45"
serde = { version = "=1.0.229", features = ["derive"] }
serde_json = "=1.0.154"
reqwest = { version = "0.11", features = ["blocking", "multipart", "json"] }
rusqlite = { version = "0.31", features = ["bundled"] }
arboard = "3"
aws-sdk-s3 = "1"
