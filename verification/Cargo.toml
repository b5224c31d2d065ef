[package]
name = "cvmaker"
version = "0.1.0"
edition = "2021"
publish = false

[dependencies]
chrono = "=0.4.45"
fast_chemail = "=0.9.6"
isocountry = "=0.3.2"
phonenumber = "=0.3.10"
url = "=2.5.8"
uuid = { version = "=1.29.0", features = ["v4"] }
serde = { version = "=1.0.229", features = ["derive"] }
serde_json = "=1.0.154"
vfs = "=0.13.0"
printpdf = { version = "=0.7.0", default-features = false }
open = "=5.4.5"
cursive = { version = "=0.21.1", default-features = false, features = ["crossterm-backend", "toml"] }
