[package]
name = "iommu"
version = "0.1.0"
edition = "2021"
publish = false

[dependencies]
bitflags = "2"
tock-registers = "*"
zerocopy = "0.8"
