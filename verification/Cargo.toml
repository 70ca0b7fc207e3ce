[package]
name = "channel_core"
version = "0.1.0"
edition = "2021"
publish = false

[dependencies]
crossbeam-utils = "=0.8.23"
spinning_top = "=0.3.0"

[dev-dependencies]
rayon = "1"
