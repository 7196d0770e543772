[package]
name = "lambda_runtime"
version = "0.1.0"
edition = "2021"
publish = false

[dependencies]
serde_json = "1"
serde_path_to_error = "0.1"
http = "0.2"
hyper = { version = "0.14", default-features = false, features = ["client", "http1", "tcp"] }
