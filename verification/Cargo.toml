[package]
name = "keyed_lock"
version = "0.1.0"
edition = "2021"
publish = false

[dependencies]
actix-web = { version = "4", default-features = false, features = ["macros"] }
chrono = { version = "0.4", default-features = false, features = ["std", "clock"] }
dashmap = "6"
log = "0.4"
simple_logger = "5"
tokio = { version = "1", features = ["sync", "time", "rt", "macros"] }
