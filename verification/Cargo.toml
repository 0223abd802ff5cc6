[package]
name = "webber"
version = "0.1.0"
edition = "2021"
publish = false

[dependencies]
ar = "*"
flate2 = "*"
tar = "*"
url = "*"
xdg = "*"
reqwest = { version = "*", default-features = false, features = ["blocking"] }
