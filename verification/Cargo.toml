[package]
name = "bank_api"
version = "0.1.0"
edition = "2021"
publish = false

[dependencies]
actix-web = { version = "=4.18.1", default-features = false, features = ["macros"] }
deadpool = { version = "=0.13.1", default-features = false, features = ["managed"] }
deadpool-postgres = "=0.14.2"
derive_more = { version = "=2.1.1", features = ["display", "from"] }
dotenv = "=0.15.0"
serde = { version = "=1.0.229", features = ["derive"] }
tokio-pg-mapper = "=0.2.0"
tokio-pg-mapper-derive = "=0.2.0"
tokio-postgres = "=0.7.18"
