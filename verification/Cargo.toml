[package]
name = "hotel"
version = "0.1.0"
edition = "2021"
publish = false

[dependencies]
ink = "=4.3.0"
openbrush_lang = "=3.2.0"
parity-scale-codec = { version = "=3.7.5", features = ["derive"] }
