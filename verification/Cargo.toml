[package]
name = "book_api"
version = "0.1.0"
edition = "2021"
publish = false

[dependencies]
diesel = { version = "2", default-features = false, features = ["sqlite", "r2d2"] }
dotenv = "0.15"
serde = { version = "1", features = ["derive"] }
serde_json = "1"
tokio = { version = "1", features = ["macros", "rt-multi-thread"] }
utoipa = "4"
warp = { version = "0.3", default-features = false }
