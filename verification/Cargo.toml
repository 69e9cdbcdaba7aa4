[package]
name = "teleport"
version = "0.1.0"
edition = "2021"
publish = false

[dependencies]
anyhow = "1"
argon2 = "0.5"
base64 = "0.22"
bytes = "1"
clap = { version = "4", default-features = false, features = ["derive", "help", "std", "usage"] }
futures-util = "0.3"
libc = "0.2"
libloading = "0.8"
moq-native = { version = "0.19.17", default-features = false, features = ["quinn", "ring"] }
moq-net = "0.2.20"
opaque-ke = { version = "4.0", features = ["argon2", "std"] }
rand = "0.9"
rcgen = "0.14"
ring = "0.17"
rpassword = "7"
sdl2 = { version = "0.38", features = ["ttf"] }
serde = { version = "1", features = ["derive"] }
serde_json = "1"
sha2 = "0.10"
spake2 = "0.4"
subtle = "2"
tokio = { version = "1", features = ["full"] }
tokio-rustls = { version = "0.26", default-features = false, features = ["ring", "tls12"] }
tracing = "0.1"
tracing-subscriber = { version = "0.3", features = ["env-filter"] }
url = "2"
x11rb = { version = "0.13", features = ["xtest"] }
zeroize = "1"
