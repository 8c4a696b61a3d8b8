[package]
name = "ip-api4rs"
version = "0.1.0"
edition = "2021"
publish = false

[dependencies]
async-trait = "*"
governor = "*"
nonzero_ext = "*"
reqwest = { version = "*", default-features = false, features = ["blocking"] }
serde = { version = "*", features = ["derive"] }
serde-aux = "*"
serde_json = "*"
thiserror = "*"
