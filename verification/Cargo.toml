[package]
name = "sensor_tags"
version = "0.1.0"
edition = "2021"
publish = false

[dependencies]
chrono = "0.4.45"
ctrlc = "3.5.2"
