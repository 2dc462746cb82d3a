[package]
name = "m64prs_core"
version = "0.1.0"
edition = "2021"
publish = false

[dependencies]
futures = "0.3"
pollster = "*"
relm4 = { version = "*", default-features = false }
