[package]
name = "mongo_browser"
version = "0.1.0"
edition = "2021"
publish = false

[dependencies]
cursive = { version = "0.20", default-features = false, features = ["crossterm-backend"] }
cursive_tree_view = "0.8"
futures = "0.3"
mongodb = "2"
owning_ref = "0.4"
tokio = { version = "1", features = ["full"] }
