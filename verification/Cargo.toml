[package]
name = "dateselect"
version = "0.1.0"
edition = "2021"
publish = false

[dependencies]
time = { version = "=0.3.55", features = ["local-offset"] }

[dev-dependencies]
time = { version = "=0.3.55", features = ["formatting", "parsing"] }
