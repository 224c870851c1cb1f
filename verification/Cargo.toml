[package]
name = "axum-postcard"
version = "0.1.0"
edition = "2021"
publish = false

[dependencies]
async-trait = "0.1"
axum = "0.7"
mime = "0.3"
postcard = { version = "1", features = ["alloc"] }
serde = "1"
thiserror = "1"
