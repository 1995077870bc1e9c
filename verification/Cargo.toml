[package]
name = "desklift"
version = "0.1.0"
edition = "2021"
publish = false

[dependencies]
cortex-m = "=0.6.7"
cortex-m-rtfm = "=0.5.3"
cortex-m-semihosting = "0.3"
embedded-hal = { version = "=0.2.7", features = ["unproven"] }
panic-halt = "0.2"
panic-semihosting = "0.5"
stm32-usbd = "0.5"
stm32f1 = { version = "=0.11.0", features = ["stm32f103", "rt"] }
stm32f1xx-hal = { version = "=0.7.0", features = ["stm32f103", "rt", "stm32-usbd"] }
usb-device = "0.2"
usbd-serial = "0.1"
