[package]
name = "query_response"
version = "0.1.0"
edition = "2021"
publish = false

[dependencies]
bytes = "1"
scylla-cql = "*"
tracing = "0.1"
uuid = "1"
