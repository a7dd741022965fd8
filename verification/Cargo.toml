[package]
name = "irq_wait"
version = "0.1.0"
edition = "2021"
publish = false

[dependencies]
cortex-m = "*"
cortex-m-rt = "*"
rtt-target = "*"
panic-rtt-target = "*"
stm32f4xx-hal = { version = "*", features = ["stm32f411", "usb_fs"] }
usb-device = "*"
usbd-serial = "*"
