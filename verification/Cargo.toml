[package]
name = "trino_connector"
version = "0.1.0"
edition = "2021"
publish = false

[dependencies]
async-trait = "=0.1.92"
datafusion-common = { version = "=55.2.0", default-features = false, features = ["sql"] }
snafu = "=0.9.2"
