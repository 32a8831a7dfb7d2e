[package]
name = "i_rpm"
version = "0.1.0"
edition = "2021"
publish = false

[dependencies]
avr-device = { version = "0.5.4", features = ["atmega328p", "rt"] }
panic-halt = "0.2.0"
ufmt = "0.2.0"
