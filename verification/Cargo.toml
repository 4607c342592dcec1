[package]
name = "dumq-mqtt"
version = "0.1.0"
edition = "2021"
publish = false

[dependencies]
bytes = "1"
log = "0.4"
thiserror = "1"
tokio = { version = "1", features = ["net", "io-util", "sync", "time", "rt-multi-thread", "macros"] }
chrono = "0.4"
env_logger = "0.11"
log4rs = { version = "1", default-features = false, features = ["console_appender", "file_appender", "pattern_encoder"] }
