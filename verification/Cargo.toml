[package]
name = "ptx_support"
version = "0.1.0"
edition = "2021"
publish = false

[dependencies]
failure = "*"
proc-macro2 = "*"
quote = "*"
syn = { version = "*", features = ["full"] }

[dev-dependencies]
nom = "*"
