[package]
name = "modguard"
version = "0.1.0"
edition = "2021"
publish = false

[dependencies]
futures = "*"
tokio = { version = "*", features = ["rt-multi-thread", "macros"] }
twilight-cache-inmemory = "*"
twilight-gateway = "*"
twilight-http = "*"
twilight-model = "*"
twilight-util = { version = "*", features = ["snowflake"] }
