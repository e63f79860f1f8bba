[package]
name = "zotero_rs"
version = "0.1.0"
edition = "2021"
publish = false

[dependencies]
bytes = "1"
reqwest = { version = "0.12", features = ["blocking", "json"] }
serde_json = "1"
thiserror = "1"
url = "2"
