[package]
name = "socket_protect"
version = "0.1.0"
edition = "2021"
publish = false

[dependencies]
jni = "=0.21.1"
ndk-context = "=0.1.1"
once_cell = "=1.21.4"
serde = "1"
tauri = { version = "2", default-features = false }
