[package]
name = "matter_rgb_lamp"
version = "0.1.0"
edition = "2021"
publish = false

[dependencies]
embassy-sync = "*"
critical-section = { version = "*", features = ["std"] }
smart-leds = "*"
palette = "*"
