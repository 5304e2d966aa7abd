[package]
name = "mimosa"
version = "0.1.0"
edition = "2021"
publish = false

[dependencies]
keyring-core = "=1.0.0"
linux-keyutils-keyring-store = "=1.0.0"
dbus-secret-service-keyring-store = "=1.0.1"
zbus-secret-service-keyring-store = { version = "=1.0.1", features = ["rt-async-io-crypto-rust"] }
apple-native-keyring-store = "=1.0.2"
windows-native-keyring-store = "=1.1.0"
serde = { version = "*", features = ["derive"] }
toml = "*"
