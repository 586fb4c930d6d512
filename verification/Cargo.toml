[package]
name = "launcher"
version = "0.1.0"
edition = "2021"
publish = false

[dependencies]
anyhow = "*"
curl = { version = "*", default-features = false }
glob = "*"
hex = "*"
libloading = "*"
regex = "*"
self-replace = "*"
semver = "*"
serde_json = "*"
sha1 = "*"
zip = { version = "*", default-features = false, features = ["deflate"] }
