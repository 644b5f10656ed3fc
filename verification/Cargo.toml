[package]
name = "ads129xx"
version = "0.2.0"
edition = "2021"
publish = false

[dependencies]
bitfield = "0.13"
embedded-hal = "0.2"
nb = "1"
