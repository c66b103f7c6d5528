[package]
name = "rusty_bird"
version = "0.1.0"
edition = "2021"
publish = false

[dependencies]
csgrs = { version = "=0.15.2", default-features = false, features = ["f64", "chull-io"] }
parry3d-f64 = "=0.18.0"

[dev-dependencies]
crossbeam-utils = "*"
