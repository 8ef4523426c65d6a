[package]
name = "vgicv3"
version = "0.1.0"
edition = "2021"
publish = false

[dependencies]
axerrno = "=0.2.2"
axaddrspace = "*"
axdevice_base = "=0.2.2"
memory_addr = "*"
spin = "*"
log = "*"
