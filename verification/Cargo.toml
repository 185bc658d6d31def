[package]
name = "flights"
version = "0.1.0"
edition = "2021"
publish = false

[dependencies]
sea-query = "=0.30.7"
chrono = "=0.4.45"
serde = { version = "=1.0.229", features = ["derive"] }
serde_json = "=1.0.154"
tokio = { version = "=1.54.1", features = ["macros", "rt-multi-thread"] }
actix-web = { version = "=4.18.1", default-features = false, features = ["macros"] }
actix-files = "=0.6.10"
askama = "=0.12.1"
sqlx = { version = "=0.8.6", default-features = false, features = ["runtime-tokio", "postgres", "chrono", "macros", "migrate"] }
reqwest = { version = "=0.11.27", default-features = false, features = ["rustls-tls"] }
config = { version = "=0.13.4", default-features = false, features = ["yaml"] }
dotenvy = "=0.15.7"
inventory = "=0.3.25"
async-trait = "=0.1.92"
