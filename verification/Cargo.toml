[package]
name = "adsb_receiver"
version = "0.1.0"
edition = "2021"
publish = false

[dependencies]
adsb_deku = "=0.6.3"
alloc-cortex-m = "=0.4.4"
cortex-m = "=0.7.10"
cortex-m-rt = "=0.7.7"
panic-rtt-target = { version = "=0.1.2", features = ["cortex-m"] }
rtt-target = { version = "=0.3.1", features = ["cortex-m"] }
stm32f3xx-hal = { version = "=0.10.0", features = ["stm32f303xc"] }
