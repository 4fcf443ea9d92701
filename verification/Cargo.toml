[package]
name = "uniffi_bindgen_cs"
version = "0.1.0"
edition = "2021"
publish = false

[dependencies]
anyhow = "1"
camino = "1"
clap = { version = "4", features = ["derive", "cargo"] }
fs-err = "2"
heck = "0.4"
serde = { version = "1", features = ["derive"] }
uniffi_bindgen = "0.24"
