[package]
name = "frosty_functions"
version = "0.1.0"
edition = "2021"
publish = false

[dependencies]
wasmi = "=2.0.0"
hex = "=0.4.3"
futures = "=0.3.34"
alloy-primitives = "=1.7.3"
ic-cdk = "=0.20.3"
candid = "*"
