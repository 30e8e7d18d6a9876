[package]
name = "bild"
version = "0.1.0"
edition = "2021"
publish = false

[dependencies]
rand = "0.8"
infer = "0.15"
image = "0.24"
webp = "0.2"
webp-animation = "0.7"
rocket = { version = "0.5", features = ["json"] }
rocket-governor = "=0.2.0-rc.4"
colored = "2"
