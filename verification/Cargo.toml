[package]
name = "nasop"
version = "0.1.0"
edition = "2021"
publish = false

[dependencies]
capstone = "0.13"
unicorn-engine = "2"
serde = { version = "1", features = ["derive"] }
toml = "0.8"
