[package]
name = "function_runner"
version = "0.1.0"
edition = "2021"
publish = false

[dependencies]
cranelift-codegen = "=0.135.5"
cranelift-native = "=0.135.5"
memmap = "=0.7.0"
