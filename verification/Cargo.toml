[package]
name = "importer"
version = "0.1.0"
edition = "2021"
publish = false

[dependencies]
chrono = { version = "0.4", features = ["serde"] }
compact_str = { version = "0.8", features = ["serde"] }
fancy-regex = "*"
indexmap = { version = "2", features = ["serde"] }
serde = { version = "1", features = ["derive"] }
serde_json = "1"
serde-untagged = "0.1"
serde_with = "3"
tempfile = "3"
thiserror = "2"
url = "2"
uuid = { version = "1", features = ["v7"] }
zip = { version = "2", default-features = false, features = ["deflate"] }
