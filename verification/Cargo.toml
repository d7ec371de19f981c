[package]
name = "slint_demo"
version = "0.1.0"
edition = "2021"
publish = false

[dependencies]
anyhow = "1"
css-color-parser2 = "*"
serde = { version = "1", features = ["derive"] }
serde_json = "1"
log = "0.4"
parking_lot = "*"
arboard = "*"
nokhwa = { version = "*", features = ["input-native"] }
