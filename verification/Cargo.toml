[package]
name = "r_polars"
version = "0.1.0"
edition = "2021"
publish = false

[dependencies]
polars = { version = "=0.37.0", features = ["lazy", "strings", "regex", "list_to_struct", "cov", "rank", "propagate_nans", "reinterpret"] }
smartstring = "=1.0.1"
extendr-api = "=0.9.0"
