[package]
name = "freight"
version = "0.1.0"
edition = "2021"
publish = false

[dependencies]
indexmap = { version = "2", features = ["serde"] }
serde = { version = "1", features = ["derive"] }
toml_edit = { version = "*", features = ["serde"] }
rhai = "1"
owo-colors = "4"
clap = { version = "4", features = ["derive"] }
anyhow = "1"
