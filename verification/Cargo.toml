[package]
name = "slint-mipidsi-adapter"
version = "0.2.0"
edition = "2021"
publish = false

[dependencies]
embedded-graphics-core = "0.4"
embedded-hal = "1.0"
i-slint-renderer-software = { version = "=1.17.1", default-features = false, features = ["libm"] }
mipidsi = "0.10"
slint = { version = "=1.17.1", default-features = false, features = ["compat-1-2", "unsafe-single-threaded", "libm"] }
