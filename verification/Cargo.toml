[package]
name = "sev_rt"
version = "0.1.0"
edition = "2021"
publish = false

[dependencies]
vcell = "0.1"
cortex-m = "0.7"
cortex-m-rt = "0.7"
cortex-m-semihosting = "0.5"
alloc-cortex-m = "0.4"
linkme = "0.3"
pin-utils = "0.1"
