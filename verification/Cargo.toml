[package]
name = "copy_translator"
version = "0.1.0"
edition = "2021"
publish = false

[dependencies]
config = "=0.15.27"
deepl = "=0.1.7"
log = "=0.4.34"
rdev = "=0.5.3"
tokio = { version = "=1.53.2", features = ["rt"] }
