[package]
name = "yad_tui"
version = "0.1.0"
edition = "2021"
publish = false

[dependencies]
base64 = "0.22"
clap = { version = "4", features = ["derive"] }
home = "0.5"
jammdb = "0.11"
log = "0.4"
log4rs = "1"
ratatui = "0.28"
serde = { version = "1", features = ["derive"] }
serde_json = "1"
toml = "0.8"
ureq = { version = "2", features = ["json"] }
zip-extract = "*"
