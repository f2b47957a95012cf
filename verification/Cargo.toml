[package]
name = "yplus"
version = "0.1.0"
edition = "2021"
publish = false

[dependencies]
rustc_apfloat = "=0.2.3"
softfp = "*"
egui = "=0.36.2"

[dependencies.eframe]
version = "=0.36.2"
default-features = false
features = ["glow", "x11", "default_fonts"]
