[package]
name = "breakout"
version = "0.1.0"
edition = "2021"
publish = false

[dependencies]
cortex-m = "=0.7.10"
cortex-m-rt = "=0.7.7"
embedded-hal = "=0.2.7"
libm = "=0.2.16"
microbit-v2 = "=0.13.0"
panic-rtt-target = "=0.2.0"
rtt-target = "=0.6.2"
