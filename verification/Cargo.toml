[package]
name = "sheetfetch"
version = "0.1.0"
edition = "2021"
publish = false

[dependencies]
ironcalc = "*"
roxmltree = "*"
reqwest = { version = "*", default-features = false, features = ["blocking"] }
