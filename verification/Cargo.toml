[package]
name = "update-informer"
version = "0.1.0"
edition = "2021"
publish = false

[dependencies]
directories = "4.0"
