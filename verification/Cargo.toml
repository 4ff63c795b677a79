[package]
name = "modkit"
version = "0.1.0"
edition = "2021"
publish = false

[dependencies]
aes = "=0.8.4"
aes-gcm = "=0.10.3"
cbc = { version = "=0.1.2", features = ["alloc"] }
chrono = "=0.4.45"
clap = { version = "=4.6.7", features = ["derive"] }
ctrlc = "=3.5.2"
dotenvy = "=0.15.7"
hex = "=0.4.3"
indicatif = "=0.17.11"
md-5 = "=0.10.6"
notify = "=6.1.1"
rand = "=0.8.8"
rsa = "=0.9.10"
serde = { version = "=1.0.229", features = ["derive"] }
serde_json = "=1.0.151"
serial2 = "=0.2.38"
sha2 = { version = "=0.10.9", features = ["oid"] }
sysinfo = "=0.37.2"
tiny_http = "=0.12.0"
toml = "=0.8.23"
tungstenite = "=0.21.0"
ureq = { version = "=2.12.1", default-features = false }
