[package]
name = "thesis_spans"
version = "0.1.0"
edition = "2021"
publish = false

[dependencies]
opentelemetry = "*"
