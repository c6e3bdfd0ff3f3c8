[package]
name = "rust_sql_parser"
version = "0.1.0"
edition = "2021"
publish = false

[dependencies]
fallible-iterator = "0.3"
sqlite3-parser = "=0.12.0"
