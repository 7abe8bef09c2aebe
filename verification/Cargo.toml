[package]
name = "modbus485"
version = "0.1.0"
edition = "2021"
publish = false

[dependencies]
hex = "=0.4.3"
modbus-core = "=0.2.0"
serial = "=0.4.0"
serialport = { version = "=4.10.1", default-features = false }
async-channel = "=2.5.0"
tokio = { version = "=1.54.1", features = ["rt-multi-thread", "macros", "time"] }
futures = "=0.3.34"
log = "=0.4.35"
fern = "=0.6.2"
chrono = { version = "=0.4.45", default-features = false, features = ["clock"] }
colored = "=2.2.0"
iced = { version = "0.10", default-features = false, features = ["tokio"] }
iced_futures = "0.7"
