[package]
name = "portfolio_gateway"
version = "0.1.0"
edition = "2021"
publish = false

[dependencies]
scraper = "*"
actix-web = { version = "*", default-features = false, features = ["macros"] }
actix-cors = "*"
actix-rt = "*"
reqwest = { version = "*", default-features = false }
lettre = { version = "*", default-features = false, features = ["smtp-transport", "builder"] }
serde = { version = "*", features = ["derive"] }
