[package]
name = "workforce"
version = "0.1.0"
edition = "2021"
publish = false

[dependencies]
async-graphql = { version = "7", features = ["bson"] }
bson = "2"
dotenv = "0.15"
mongodb = { version = "2", features = ["tokio-sync"] }
serde = { version = "1", features = ["derive"] }
