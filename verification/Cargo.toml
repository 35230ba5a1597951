[package]
name = "potato_voice"
version = "0.1.0"
edition = "2021"
publish = false

[dependencies]
clap = { version = "*", features = ["derive"] }
cpal = "*"
dirs = "*"
dotenvy = "*"
envy = "*"
serde = { version = "*", features = ["derive"] }
toml = "*"
whisper-rs = "*"

[dev-dependencies]
hound = "*"
