[package]
name = "query_race"
version = "0.1.0"
edition = "2021"
publish = false

[dependencies]
chrono = "0.4"
futures = "0.1"
hyper = "0.12"
pretty_env_logger = "0.4"
serde = "1"
serde_derive = "1"
serde_json = "1"
