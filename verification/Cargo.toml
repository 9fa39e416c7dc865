[package]
name = "poster"
version = "0.1.0"
edition = "2021"
publish = false

[dependencies]
uuid = { version = "*", features = ["v4"] }
actix-web = { version = "*", default-features = false, features = ["cookies", "macros"] }
actix-cors = "*"
actix-files = "*"
actix_extract_multipart = "*"
futures-util = "*"
reqwest = { version = "*", default-features = false, features = ["json"] }
serde = { version = "*", features = ["derive"] }
serde_json = "*"
tokio = { version = "*", features = ["fs"] }
