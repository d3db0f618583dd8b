[package]
name = "matrix_fuzz"
version = "0.1.0"
edition = "2021"
publish = false

[dependencies]
convert_case = "*"
once_cell = "*"
reqwest = { version = "*", default-features = false, features = ["blocking", "json"] }
serde = { version = "*", features = ["derive"] }
serde_json = "*"
serde_yaml = "*"
