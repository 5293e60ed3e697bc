[package]
name = "bamep"
version = "0.1.0"
edition = "2021"
publish = false

[dependencies]
base64 = "0.22"
sha2 = "0.10"
rand = "0.8"
subtle = "2"
getrandom = "0.2"
ed25519-dalek = "2"
ring = "0.17"
uuid = { version = "1", features = ["v4"] }
chrono = "0.4"
thiserror = "1"
serde = { version = "1", features = ["derive"] }
serde_json = "1"
async-trait = "0.1"
tokio = { version = "1", features = ["net", "sync", "rt", "macros"] }
rustls = { version = "0.23", default-features = false, features = ["ring", "std"] }
tokio-rustls = { version = "0.26", default-features = false, features = ["ring"] }
tokio-tungstenite = "0.24"
sqlx = { version = "0.8", default-features = false, features = ["runtime-tokio", "postgres", "uuid", "chrono"] }
rusqlite = { version = "0.32", features = ["bundled"] }
