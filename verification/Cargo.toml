[package]
name = "bevy_miniquinn"
version = "0.1.0"
edition = "2021"
publish = false

[dependencies]
bevy = { version = "=0.16.1", default-features = false, features = ["std", "multi_threaded", "async_executor", "bevy_log"] }
quinn = "=0.11.12"
