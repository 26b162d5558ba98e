[package]
name = "token_service"
version = "0.1.0"
edition = "2021"
publish = false

[dependencies]
jwt = "0.16"
hmac = "0.12"
sha2 = "0.10"
lettre_email = "0.9"
lettre = { version = "0.9", default-features = false, features = ["smtp-transport"] }
reqwest = { version = "0.12", default-features = false, features = ["blocking", "json"] }
serde = { version = "1", features = ["derive"] }
