[package]
name = "libaflgo"
version = "0.1.0"
edition = "2021"
publish = false

[dependencies]
libafl = "=0.16.1"
libafl_bolts = "=0.16.1"
once_cell = "=1.21.4"
serde = { version = "=1.0.229", features = ["derive"] }
