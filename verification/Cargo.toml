[package]
name = "rutie_serde"
version = "0.1.0"
edition = "2021"
publish = false
