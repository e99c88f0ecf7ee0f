[package]
name = "ortie"
version = "0.1.0"
edition = "2021"
publish = false

[dependencies]
anyhow = "=1.0.104"
base64 = "=0.22.1"
clap = { version = "=4.6.7", features = ["derive"] }
clap_mangen = "=0.2.33"
dirs = "=6.0.0"
http = "=1.5.0"
humantime = "=2.4.0"
io-keyring = { version = "=0.0.2", features = ["serde", "std"] }
io-oauth = { version = "=0.0.4", features = ["oauth2", "pkce"] }
io-process = { version = "=0.0.2", features = ["expand", "serde", "std"] }
io-stream = { version = "=0.0.2", features = ["std"] }
log = "=0.4.34"
native-tls = "=0.2.18"
notify-rust = "=4.18.2"
open = "=5.4.5"
pimalaya-toolbox = { version = "=0.0.4", features = ["command", "config", "native-tls", "rustls-aws", "rustls-ring", "secret", "stream", "terminal"] }
rustls = { version = "=0.23.46", features = ["ring"] }
rustls-platform-verifier = "=0.5.3"
secrecy = { version = "=0.10.3", features = ["serde"] }
serde = { version = "=1.0.229", features = ["derive"] }
shellexpand = "=3.1.2"
url = { version = "=2.5.8", features = ["serde"] }
