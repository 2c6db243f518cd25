[package]
name = "rpcmux"
version = "0.1.0"
edition = "2021"
publish = false

[dependencies]
grpc = "=0.8.3"
grpc-protobuf = "=0.8.3"
protobuf = "=2.18.2"
futures = "=0.3.34"
