[package]
name = "seetle"
version = "0.1.0"
edition = "2021"
publish = false

[dependencies]
ring = "0.17"
serde = { version = "1", features = ["derive"] }
serde_json = "1"
async-trait = "0.1"
tokio = { version = "1", features = ["full"] }
thiserror = "2"
log = "0.4"
clap = { version = "4", features = ["derive"] }
confy = "0.6"
keyring = { version = "3", features = ["linux-native"] }
hex = "0.4"
ratatui = "0.29"
crossterm = "0.28"
tui-logger = "0.14"
arboard = { version = "3", default-features = false }
x25519-dalek = { version = "2", features = ["static_secrets"] }
curve25519-dalek = "4"
hpke = "0.12"
rand = "0.8"
