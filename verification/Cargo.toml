[package]
name = "task_manager"
version = "0.1.0"
edition = "2021"
publish = false

[dependencies]
env_logger = "0.11"
lazy_static = "1"
machine = "0.3"
nalgebra = "0.33"
rosrust = "0.9"
serde = "1"
