[package]
name = "fclones"
version = "0.1.0"
edition = "2021"
publish = false

[dependencies]
byte-unit = "=4.0.19"
bytesize = "=1.3.3"
serde = { version = "=1.0.229", features = ["derive"] }
fiemap = "=0.1.3"
