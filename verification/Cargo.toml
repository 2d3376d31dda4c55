[package]
name = "gpg-tui"
version = "0.11.0"
edition = "2021"
publish = false

[dependencies]
anyhow = "1"
better-panic = "0.3"
chrono = { version = "0.4", default-features = false, features = ["std"] }
clap = { version = "4", features = ["derive", "env", "cargo"] }
colorsys = "0.6"
copypasta-ext = "0.4"
crossterm = { version = "0.27", features = ["serde"] }
dirs-next = "2"
gpgme = "0.11"
image = { version = "0.24", default-features = false, features = ["jpeg"] }
log = "0.4"
ratatui = "0.26"
serde = { version = "1", features = ["derive"] }
shellexpand = "3"
toml = "0.8"
tui-logger = "0.11"
unicode-width = "0.1"
