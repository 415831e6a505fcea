[package]
name = "sheet_codec"
version = "0.1.0"
edition = "2021"
publish = false

[dependencies]
chrono = { version = "0.4", default-features = false, features = ["std"] }
umya-spreadsheet = "2"
pyo3 = "*"
