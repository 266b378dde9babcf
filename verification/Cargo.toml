[package]
name = "fibonacci"
version = "0.1.0"
edition = "2021"
publish = false

[dependencies]
console = "0.15"
num-bigint = "0.4"
num-traits = "0.2"
