[package]
name = "value_serializer"
version = "0.1.0"
edition = "2021"
publish = false

[dependencies]
scylla-cql = "*"
