[package]
name = "keithley2230"
version = "0.1.0"
edition = "2021"
publish = false

[dependencies]
strum = { version = "=0.28.0", features = ["derive"] }
thiserror = "=2.0.21"
visa-api = "=0.2.2"
