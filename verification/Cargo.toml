[package]
name = "skills_cowork"
version = "0.1.0"
edition = "2021"
publish = false

[dependencies]
uuid = { version = "*", features = ["v4"] }
serde = { version = "*", features = ["derive"] }
serde_json = "*"
thiserror = "*"
chrono = { version = "*", default-features = false, features = ["clock"] }
reqwest = { version = "*", default-features = false, features = ["blocking"] }
zip = { version = "*", default-features = false, features = ["deflate"] }
