[package]
name = "quill"
version = "0.1.0"
edition = "2021"
publish = false

[dependencies]
base64 = "=0.22.1"
serde = { version = "=1.0.229", features = ["derive"] }
serde_json = "=1.0.154"
toml_edit = "=0.25.17"
rusqlite = { version = "=0.41.1", features = ["bundled"] }
uuid = { version = "=1.29.0", features = ["v4"] }
chrono = "=0.4.45"
log = "=0.4.35"
epub = "=2.1.6"
xml-rs = "=1.0.0"

[dev-dependencies]
zip = { version = "=9.2.2", default-features = false, features = ["deflate"] }
