[package]
name = "native_commands"
version = "0.1.0"
edition = "2021"
publish = false

[dependencies]
arboard = "3.7.0"
image = "0.25.10"
serde = { version = "1", features = ["derive"] }
trash = "5.2.9"
