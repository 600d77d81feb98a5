[package]
name = "iced_form"
version = "0.1.0"
edition = "2021"
publish = false

[dependencies]
convert_case = "0.6"
syn = { version = "2", features = ["full"] }
quote = "1"
proc-macro2 = "1"
iced = { version = "0.13", default-features = false }
