[package]
name = "rtc_readout"
version = "0.1.0"
edition = "2021"
publish = false

[dependencies]
chrono = { version = "=0.4.45", default-features = false }
ds3231 = "=0.3.0"
embedded-hal = "=1.0.0"
ufmt = "=0.2.0"
avr-device = { version = "=0.7.0", features = ["atmega328p", "rt"] }
panic-halt = "=1.0.0"
