[package]
name = "tidbit"
version = "0.1.0"
edition = "2021"
publish = false

[dependencies]
aes-gcm = "0.10"
anyhow = "1"
axum = "0.7"
base64 = "0.22"
chacha20poly1305 = "0.10"
chrono = { version = "0.4", default-features = false, features = ["clock", "serde"] }
clap = { version = "4", features = ["derive"] }
dirs = "5"
ethers-core = { version = "2", default-features = false }
hex = "0.4"
hkdf = "0.12"
pqcrypto-dilithium = "*"
pqcrypto-kyber = "*"
pqcrypto-traits = "*"
rand = "0.8"
reqwest = { version = "0.12", default-features = false, features = ["json", "multipart"] }
serde = { version = "1", features = ["derive"] }
serde_json = "1"
sha2 = "0.10"
sha3 = "0.10"
thiserror = "1"
time = "0.3"
tokio = { version = "1", features = ["rt-multi-thread", "macros", "net"] }
toml = "0.8"
tower-http = { version = "0.5", features = ["cors", "fs"] }
tree_magic_mini = "3"
uuid = { version = "1", features = ["v4"] }
