[package]
name = "mkdown"
version = "0.1.0"
edition = "2021"
publish = false

[dependencies]
encoding_rs = "0.8"
chardetng = "0.1"
regex = "1"
grep-regex = "0.1"
grep-matcher = "0.1"
grep-searcher = "0.1"
zip = { version = "2", default-features = false, features = ["deflate"] }
base64 = "0.22"
uuid = { version = "1", features = ["v4"] }
ignore = "0.4"
tempfile = "3"
trash = "5"
serde = { version = "1", features = ["derive"] }
serde_json = "1"
thiserror = "2"
