[package]
name = "jxl_core"
version = "0.1.0"
edition = "2021"
publish = false

[dependencies]
brotli = "=9.0.0"
bytemuck = "=1.25.2"
jxl = "=0.3.0"
lcms2 = "=6.2.0"
