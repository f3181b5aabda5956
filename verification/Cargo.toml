[package]
name = "finder_7m24"
version = "0.1.0"
edition = "2021"
publish = false

[dependencies]
config = "*"
log = "*"
stderrlog = "*"
tokio = { version = "*", features = ["rt", "macros", "net", "time"] }
tokio-modbus = "*"
tokio-postgres = "*"
