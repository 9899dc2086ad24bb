[package]
name = "num_rational"
version = "0.2.4"
edition = "2021"
publish = false

[dependencies]
num-bigint = "0.4"
num-integer = "0.1"
num-traits = "0.2"
serde = "1"
