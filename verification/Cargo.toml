[package]
name = "hydentity"
version = "0.1.0"
edition = "2021"
publish = false

[dependencies]
arcis-imports = "=0.5.4"
anchor-lang = "1"
