[package]
name = "sensirion-sht3x"
version = "0.1.0"
edition = "2021"
publish = false

[dependencies]
bitflags = "=2.13.2"
bytes = "=1.12.1"
embedded-hal = "=1.0.0"
embedded-hal-async = "=1.0.0"
measurements = "=0.11.1"
sensirion-i2c = { version = "=0.4.0", features = ["embedded-hal-async"] }

[dev-dependencies]
embedded-hal-mock = { version = "=0.11.1", features = ["eh1", "embedded-hal-async"] }
futures = "=0.3.34"
