[package]
name = "milvus"
version = "0.1.0"
edition = "2021"
publish = false

[dependencies]
prost = "=0.14.4"
thiserror = "=2.0.21"
tonic = { version = "=0.14.6", default-features = false, features = ["channel", "codegen", "router", "transport"] }
tonic-prost = "*"
