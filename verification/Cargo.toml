[package]
name = "inter_val"
version = "0.1.0"
edition = "2021"

[dependencies]
num = "0.4"
ordered-float = "4"
thiserror = "1"
