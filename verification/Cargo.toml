[package]
name = "redis_eventstreams"
version = "0.2.0"
edition = "2021"
publish = false

[dependencies]
redis-streams = "=0.1.1"
wascc-codec = "=0.8.1"
log = "*"
env_logger = "*"
futures-util = { version = "*", features = ["alloc"] }
rmp = "=0.8.9"
