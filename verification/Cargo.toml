[package]
name = "pmw_mouse"
version = "0.1.0"
edition = "2021"
publish = false

[dependencies]
cortex-m = "=0.7.9"
fugit = "=0.3.9"
rtt-target = "=0.6.2"
stm32-usbd = "=0.6.0"
stm32f1xx-hal = { version = "=0.10.0", features = ["stm32f103"] }
usb-device = "=0.2.9"
usbd-hid-device = "=0.1.1"
