[package]
name = "my_vector_db"
version = "0.1.0"
edition = "2021"
publish = false

[dependencies]
tokenizers = "*"
encoding_rs = "*"
uuid = { version = "*", features = ["v4"] }
arrow = "*"
parquet = "*"
serde_json = "*"
anyhow = "*"
indicatif = "*"
memmap2 = "*"
ndarray = "*"
ort = { version = "=2.0.0-rc.13", default-features = false, features = ["load-dynamic", "ndarray"] }
