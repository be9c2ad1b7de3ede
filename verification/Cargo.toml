[package]
name = "amqmon"
version = "0.1.0"
edition = "2021"
publish = false

[dependencies]
serde_json = "*"
xmltree = { version = "*", features = ["attribute-order"] }
reqwest = { version = "*", default-features = false, features = ["blocking"] }
config = "*"
