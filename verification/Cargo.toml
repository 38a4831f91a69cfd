[package]
name = "block_drop"
version = "0.1.0"
edition = "2021"
publish = false

[dependencies]
uuid = { version = "=1.29.0", features = ["v4"] }
piston_window = "*"
piston2d-sprite = "*"
piston-ai_behavior = "*"
find_folder = "*"
