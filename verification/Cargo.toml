[package]
name = "sql_connector"
version = "0.1.0"
edition = "2021"
publish = false

[dependencies]
serde_json = "=1.0.151"
mysql = "=28.0.3"
