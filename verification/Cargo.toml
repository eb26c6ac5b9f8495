[package]
name = "turtl_core"
version = "0.1.0"
edition = "2021"
publish = false

[dependencies]
serde = "=1.0.229"
serde_json = "=1.0.154"
log = "=0.4.35"
fern = "=0.7.1"
