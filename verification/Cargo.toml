[package]
name = "helpdesk"
version = "0.1.0"
edition = "2021"
publish = false

[dependencies]
tokio-postgres = { version = "0.7", features = ["with-uuid-1", "with-time-0_3"] }
uuid = { version = "1", features = ["v4"] }
time = { version = "0.3", features = ["std", "formatting", "parsing"] }
serde = { version = "1", features = ["derive"] }
tokio = { version = "1", features = ["rt"] }
log = "0.4"
pretty_env_logger = "0.5"
config = "0.13"
lazy_static = "1"
actix-web = { version = "4", default-features = false, features = ["macros"] }
async-trait = "0.1"
