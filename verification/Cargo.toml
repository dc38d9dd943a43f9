[package]
name = "culvert"
version = "0.1.2"
edition = "2021"
publish = false

[dependencies]
display-types = { version = "=0.3.1", default-features = false }
hdmi-hal = { version = "=0.4.0", default-features = false }
plumbob = { version = "=0.1.3", default-features = false }
