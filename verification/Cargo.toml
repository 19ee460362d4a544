[package]
name = "gesture_api"
version = "0.1.0"
edition = "2021"
publish = false

[dependencies]
actix-web = "*"
actix-cors = "*"
log = "*"
simplelog = "*"
