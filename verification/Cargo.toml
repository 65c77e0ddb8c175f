[package]
name = "riptsk"
version = "0.1.0"
edition = "2021"
publish = false

[dependencies]
regex = "1"
serde = { version = "1", features = ["derive"] }
serde_json = "1"
serde_yaml_ng = "*"
chrono = "0.4"
minijinja = "2"
shell-escape = "0.1"
clap = { version = "4", features = ["derive"] }
tempfile = "3"
console = "*"
dialoguer = "*"
anyhow = "1"
base64 = "*"
