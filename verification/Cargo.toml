[package]
name = "einkaufsliste"
version = "0.1.0"
edition = "2021"
publish = false

[dependencies]
argon2 = "=0.5.3"
blake3 = { version = "=1.8.7", features = ["pure"] }
rand = "=0.8.8"
sled = "=0.34.7"
rkyv = { version = "=0.7.46", features = ["validation"] }
bytecheck = "=0.6.12"
serde = { version = "=1.0.229", features = ["derive"] }
serde_json = "=1.0.154"
mime = "=0.3.17"
actix-web = { version = "=4.18.1", default-features = false, features = ["macros", "cookies", "secure-cookies", "rustls-0_20"] }
actix-identity = "=0.8.0"
actix-session = { version = "=0.10.1", default-features = false }
actix-cors = "0.7"
anyhow = "=1.0.104"
futures-util = "=0.3.34"
config = { version = "0.13", default-features = false, features = ["toml"] }
rustls = "0.20"
rustls-pemfile = "1"
