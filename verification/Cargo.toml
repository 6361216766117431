[package]
name = "panel_menu"
version = "0.1.0"
edition = "2021"
publish = false

[dependencies]
embedded-hal = { version = "=0.2.7", features = ["unproven"] }
embedded-graphics = "=0.7.1"
profont = "=0.6.1"
libm = "=0.2.16"
mipidsi = "=0.5.0"
display-interface-spi = "=0.4.1"
