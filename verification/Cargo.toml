[package]
name = "nuggies"
version = "0.1.0"
edition = "2021"
publish = false

[dependencies]
bb8 = "0.8"
bb8-postgres = "0.8"
chrono = "0.4"
chrono-tz = "0.8"
dotenv = "0.15"
rand = "0.8"
reqwest = { version = "0.11", default-features = false, features = ["json", "rustls-tls"] }
serde_json = "1"
serenity = "0.11"
tokio = { version = "1", features = ["macros", "rt-multi-thread"] }
tokio-postgres = { version = "0.7", features = ["with-chrono-0_4"] }
