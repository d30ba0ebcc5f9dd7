[package]
name = "vecfacade"
version = "0.1.0"
edition = "2021"
publish = false

[dependencies]
vecstore = "*"
serde_json = "1"
uuid = { version = "1", features = ["v4"] }
tempfile = "3"
bytemuck = "1"
