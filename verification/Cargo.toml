[package]
name = "rsramfs"
version = "0.1.0"
edition = "2021"
publish = false

[dependencies]
cstr_core = "0.2"
cty = "0.2"
lazy_static = "1"
spin = "0.5"
