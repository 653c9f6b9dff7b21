[package]
name = "flatfile_pipeline"
version = "0.1.0"
edition = "2021"
publish = false

[dependencies]
anyhow = "1"
chrono = "0.4"
dotenv = "0.15"
flate2 = "1"
futures = "0.3"
object_store = { version = "0.11", features = ["aws", "gcp"] }
polars = { version = "0.46", default-features = false, features = ["csv", "parquet"] }
tokio = { version = "1", features = ["macros", "rt-multi-thread", "fs"] }
