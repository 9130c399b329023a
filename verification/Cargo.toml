[package]
name = "todo_list"
version = "0.1.0"
edition = "2021"
publish = false

[dependencies]
anyhow = "=1.0.104"
resolve-path = "=0.1.0"
rmp-serde = "=1.3.1"
slint = { version = "=1.18.1", default-features = false, features = ["std", "compat-1-2"] }
