[package]
name = "cobalt_s3"
version = "0.1.0"
edition = "2021"
publish = false

[dependencies]
anyhow = "=1.0.104"
aws-sdk-s3 = { version = "=1.152.0", default-features = false }
aws-smithy-async = "=1.3.0"
aws-smithy-types = { version = "=1.8.1", features = ["byte-stream-poll-next"] }
aws-types = "=1.6.0"
bytes = "=1.12.1"
futures = "=0.3.34"
