[package]
name = "oncampus"
version = "0.1.0"
edition = "2021"
publish = false

[dependencies]
actix-web = { version = "=4.18.1", default-features = false, features = ["macros"] }
anyhow = "=1.0.104"
bcrypt = "=0.17.1"
chrono = { version = "=0.4.45", default-features = false, features = ["now", "std"] }
dotenvy = "=0.15.7"
jsonwebtoken = "=9.3.1"
lettre = { version = "=0.11.23", default-features = false, features = ["builder", "smtp-transport", "tokio1-native-tls"] }
libsql = "=0.9.30"
log = "=0.4.34"
rand = "=0.8.8"
serde = { version = "=1.0.229", features = ["derive"] }
serde_json = "=1.0.154"
uuid = { version = "=1.29.0", features = ["serde", "v4", "v6"] }
validator = "=0.20.0"
validator_derive = "=0.20.1"

[dev-dependencies]
openssl = "=0.10.81"
