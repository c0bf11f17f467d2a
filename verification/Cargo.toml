[package]
name = "contact_form"
version = "0.1.0"
edition = "2021"
publish = false

[dependencies]
regex = "1"
actix-web = "4"
actix-cors = "*"
actix-governor = "*"
clap = { version = "4", features = ["derive"] }
rusqlite = "*"
serde = { version = "1", features = ["derive"] }
serde_json = "1"
