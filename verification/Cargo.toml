[package]
name = "twilight_http_resource"
version = "0.1.0"
edition = "2021"
publish = false

[dependencies]
twilight-http = "0.11"
twilight-model = "0.11"
twilight-validate = "0.11"
