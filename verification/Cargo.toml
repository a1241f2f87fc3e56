[package]
name = "svg-invert"
version = "0.1.0"
edition = "2021"
publish = false

[dependencies]
csscolorparser = "*"
thiserror = "1"
xml-rs = "0.8"
