[package]
name = "backend"
version = "0.1.0"
edition = "2021"
publish = false

[dependencies]
async-graphql = { version = "=7.2.1", features = ["chrono"] }
sqlx = { version = "=0.9.0", default-features = false, features = ["postgres", "runtime-tokio", "chrono"] }
