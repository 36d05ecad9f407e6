[package]
name = "sql_extractor"
version = "0.1.0"
edition = "2021"
publish = false

[dependencies]
anyhow = "=1.0.104"
clap = { version = "=4.6.7", features = ["derive"] }
csv = "=1.4.0"
parse-mediawiki-sql = { version = "=0.10.0", features = ["utils"] }
