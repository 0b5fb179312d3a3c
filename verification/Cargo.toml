[package]
name = "rustorm_sqlite"
version = "0.1.0"
edition = "2021"
publish = false

[dependencies]
regex = "1"
r2d2 = "0.8"
r2d2_sqlite = "*"
rusqlite = "*"
