[package]
name = "game_catalog"
version = "0.1.0"
edition = "2021"
publish = false

[dependencies]
diesel = { version = "2", features = ["sqlite", "r2d2", "time"] }
diesel_migrations = "2"
time = "0.3"
uuid = "1"
