[package]
name = "dfu"
version = "0.1.0"
edition = "2021"
publish = false

[dependencies]
log = "=0.4.34"
nix = "=0.18.0"
nusb = "=0.1.14"
usbapi = "=0.2.5"
