[package]
name = "clientflow"
version = "0.1.0"
edition = "2021"
publish = false

[dependencies]
glass_pumpkin = "=2.0.0-rc0"
grammers-client = "=0.10.0"
grammers-session = "=0.10.0"
grammers-mtsender = "=0.10.0"
grammers-tl-types = "=0.10.0"
log = "=0.4.34"
simple_logger = "=5.2.0"
tokio = { version = "=1.53.2", features = ["rt"] }
