[package]
name = "arrow_struct"
version = "0.1.0"
edition = "2021"
publish = false

[dependencies]
arrow = { version = "*", default-features = false }
bytes = "1"
convert_case = "*"
deluxe = "*"
proc-macro2 = "1"
quote = "1"
syn = { version = "2", features = ["full"] }
