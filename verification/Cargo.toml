[package]
name = "hello-rs"
version = "0.1.0"
edition = "2021"
publish = false

[dependencies]
argparse = "*"
chrono = "0.4"
openweathermap = "*"
serde_json = "1"
substring = "*"
sys-info = "*"
systemstat = "*"
unicode-segmentation = "1"
whoami = "*"
