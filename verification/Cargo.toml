[package]
name = "in_list"
version = "0.1.0"
edition = "2021"
publish = false

[dependencies]
arrow = { version = "13.0.0", default-features = false }
datafusion-common = { version = "8.0.0", default-features = false }
datafusion-expr = { version = "8.0.0", default-features = false }
