[package]
name = "readstat_sas"
version = "0.1.0"
edition = "2021"
publish = false

[dependencies]
chrono = { version = "0.4", default-features = false, features = ["std"] }
datetime = "0.5"
derive_builder = "0.20"
num = "0.4"
