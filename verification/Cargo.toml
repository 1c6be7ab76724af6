[package]
name = "auto_ipld"
version = "0.1.0"
edition = "2021"
publish = false

[dependencies]
cid = { version = "0.11", features = ["serde-codec"] }
serde = { version = "1", features = ["derive"] }
