[package]
name = "lpc55_usbhs"
version = "0.1.0"
edition = "2021"
publish = false

[dependencies]
vcell = "0.1"
usb-device = "0.2"
nb = "1"
embedded-time = "0.12"
lpc55-pac = "*"
