[package]
name = "faces_pfm"
version = "0.1.0"
edition = "2021"
publish = false

[dependencies]
bitflags = "=2.13.2"
faces = "=0.1.25"
limine = "=0.5.0"
log = "=0.4.35"
spin = "=0.12.3"
