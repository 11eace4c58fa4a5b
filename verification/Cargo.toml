[package]
name = "rust_solar"
version = "0.1.0"
edition = "2021"
publish = false

[dependencies]
displaydoc = "*"
strum = { version = "*", features = ["derive"] }
