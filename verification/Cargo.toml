[package]
name = "propertychain"
version = "0.1.0"
edition = "2021"
publish = false

[dependencies]
exonum = "*"
iron = "*"
router = "*"
bodyparser = "*"
serde = "*"
serde_derive = "*"
serde_json = "*"
