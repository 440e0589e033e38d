[package]
name = "xvisio"
version = "0.1.0"
edition = "2021"
publish = false

[dependencies]
bitflags = "2"
crossbeam-channel = "0.5"
hidapi = { version = "2", default-features = false, features = ["linux-native-basic-udev"] }
log = "0.4"
rusb = "0.9"
thiserror = "1"
