[package]
name = "pipeboom"
version = "0.1.0"
edition = "2021"
publish = false

[dependencies]
percent-encoding = "*"
tokio = { version = "*", features = ["full"] }
serde = { version = "*", features = ["derive"] }
serde_json = "*"
clap = { version = "*", features = ["derive"] }
log = "*"
fern = "*"
humantime = "*"
surf = "*"
http-cache-surf = "*"
discord-rich-presence = "*"
