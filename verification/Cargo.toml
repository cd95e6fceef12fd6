[package]
name = "vrl_engine"
version = "0.1.0"
edition = "2021"
publish = false

[dependencies]
seahash = "4.1"
