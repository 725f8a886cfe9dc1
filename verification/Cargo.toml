[package]
name = "shurectl"
version = "0.1.0"
edition = "2021"
publish = false

[dependencies]
anyhow = "1"
hidapi = { version = "2", default-features = false, features = ["linux-native-basic-udev"] }
