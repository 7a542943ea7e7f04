[package]
name = "mongo_logger"
version = "0.1.0"
edition = "2021"
publish = false

[dependencies]
bson = { version = "=2.15.0", features = ["chrono-0_4"] }
chrono = "=0.4.45"
dotenv = "=0.15.0"
futures = "=0.3.34"
log = { version = "=0.4.34", features = ["std"] }
mongodb = "=2.8.2"
tokio = { version = "=1.54.1", features = ["macros", "rt-multi-thread"] }
