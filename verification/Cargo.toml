[package]
name = "winparsingtools"
version = "0.1.0"
edition = "2021"
publish = false

[dependencies]
byteorder = "1.4"
chrono = { version = "0.4", default-features = false, features = ["std"] }
encoding_rs = "0.8"
serde = { version = "1", features = ["derive"] }
thiserror = "1"
