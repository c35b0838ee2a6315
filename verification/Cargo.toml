[package]
name = "otp_auth"
version = "0.1.0"
edition = "2021"
publish = false

[dependencies]
rand = "=0.8.8"
sha2 = "=0.10.9"
hex = "=0.4.3"
aes-gcm = "=0.10.3"
bcrypt = "=0.19.3"
rust-argon2 = "=3.0.0"
html2text = "=0.17.4"
validator = "=0.21.0"
serde = { version = "=1.0.229", features = ["derive"] }
serde_json = "=1.0.154"
actix-web = "=4.18.1"
actix-identity = "=0.9.0"
actix-session = { version = "=0.11.0", features = ["cookie-session"] }
actix-cors = "=0.7.2"
awc = { version = "=3.11.0", default-features = false, features = ["rustls-0_23-native-roots"] }
deadpool-postgres = { version = "=0.14.2", features = ["serde"] }
tokio-postgres = { version = "=0.7.18", features = ["with-chrono-0_4"] }
tokio-pg-mapper = "=0.2.0"
tokio-pg-mapper-derive = "=0.2.0"
utoipa = { version = "=6.0.0", features = ["actix_extras"] }
dotenv = "=0.15.0"
env_logger = "=0.11.11"
envy = "=0.4.2"
futures = "=0.3.34"
chrono = { version = "=0.4.45", features = ["serde"] }
mail-builder = "=1.0.0"
mail-send = "=0.6.2"
anyhow = "=1.0.104"
