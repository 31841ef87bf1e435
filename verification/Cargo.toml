[package]
name = "d0bby"
version = "0.1.0"
edition = "2021"
publish = false

[dependencies]
json = "=0.12.4"
log = "=0.4.34"
env_logger = "=0.11.11"
paho-mqtt = { version = "=0.12.5", default-features = false }
