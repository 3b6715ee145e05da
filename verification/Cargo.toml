[package]
name = "pg_strict"
version = "0.1.0"
edition = "2021"
publish = false

[dependencies]
sqlparser = { version = "=0.63.0", default-features = false, features = ["std"] }
pgrx = { version = "=0.16.1", features = ["pg17"] }
