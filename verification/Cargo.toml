[package]
name = "xrns_render"
version = "0.1.0"
edition = "2021"
publish = false

[dependencies]
image = { version = "*", default-features = false, features = ["png"] }
roxmltree = "*"
zip = { version = "*", default-features = false, features = ["deflate"] }
