[package]
name = "password_manager"
version = "0.1.0"
edition = "2021"
publish = false

[dependencies]
textwrap = "0.16"
serde = { version = "1", features = ["derive"] }
serde_json = "1"
rpassword = "7"
clap = { version = "4", features = ["derive"] }
