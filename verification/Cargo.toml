[package]
name = "upkeep"
version = "0.1.0"
edition = "2021"
publish = false

[dependencies]
walkdir = "2"
color-eyre = "0.6"
directories = "5"
tracing = "0.1"
