[package]
name = "sum_split"
version = "0.1.0"
edition = "2021"
publish = false

[dependencies]
z3 = "=0.11.2"
serde = { version = "=1.0.229", features = ["derive"] }
tokio = { version = "=1.54.1", features = ["macros", "rt-multi-thread"] }
lambda_runtime = "=1.5.0"
