[package]
name = "uefi_services"
version = "0.1.0"
edition = "2021"
publish = false

[dependencies]
cfg-if = "1"
log = "0.4"
qemu-exit = "*"
uefi = { version = "*", features = ["alloc", "logger"] }
