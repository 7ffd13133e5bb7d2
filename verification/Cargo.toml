[package]
name = "hat"
version = "0.1.0"
edition = "2021"
publish = false

[dependencies]
critical-section = { version = "1", features = ["std"] }
heapless = "0.8"
syn = { version = "1", features = ["full"] }
quote = "1"
proc-macro2 = "1"
cortex-m = "0.7"
