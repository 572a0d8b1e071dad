[package]
name = "robot_teleop"
version = "0.1.0"
edition = "2021"
publish = false

[dependencies]
abi_stable = "*"
tokio = { version = "*", features = ["rt-multi-thread", "macros", "time", "sync"] }
