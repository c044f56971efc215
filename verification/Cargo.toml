[package]
name = "universal_interface_adapter"
version = "0.1.0"
edition = "2021"
publish = false

[dependencies]
stm32f4xx-hal = { version = "*", features = ["stm32f446", "usb_fs", "can"] }
usb-device = "*"
usbd-serial = "*"
cortex-m = "*"
cortex-m-rt = "*"
nb = "*"
panic-halt = "*"
static_cell = "*"
bxcan = "*"
