[package]
name = "gpui_elements"
version = "0.1.0"
edition = "2021"
publish = false

[dependencies]
wgpu = "*"
libc = "0.2"
log = "0.4"
smallvec = "1"
syn = { version = "2", features = ["full"] }
quote = "1"
proc-macro2 = "1"
