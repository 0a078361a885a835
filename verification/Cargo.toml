[package]
name = "auth_core"
version = "0.1.0"
edition = "2021"
publish = false

[dependencies]
actix-cors = "*"
actix-session = { version = "*", features = ["cookie-session"] }
actix-web = "4"
argon2 = "0.5"
neo4rs = "*"
serde = { version = "1", features = ["derive"] }
serde_json = "1"
uuid = { version = "1", features = ["v4"] }
