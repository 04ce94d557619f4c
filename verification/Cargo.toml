[package]
name = "zip_bridge"
version = "0.1.0"
edition = "2021"
publish = false

[dependencies]
zip = { version = "=0.6.6", default-features = false, features = ["deflate", "bzip2", "zstd"] }
thiserror = "=1.0.69"
log = "=0.4.34"
