[package]
name = "subscription_service"
version = "0.1.0"
edition = "2021"
publish = false

[dependencies]
actix-web = { version = "*", default-features = false, features = ["macros"] }
chrono = { version = "*", features = ["serde"] }
diesel = { version = "*", features = ["postgres", "r2d2", "uuid", "chrono"] }
dotenv = "*"
reqwest = { version = "*", default-features = false, features = ["json"] }
serde = { version = "*", features = ["derive"] }
serde_json = "*"
uuid = { version = "*", features = ["v4", "serde"] }
