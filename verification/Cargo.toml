[package]
name = "neblogos"
version = "0.1.0"
edition = "2021"
publish = false

[dependencies]
multiboot2 = "0.22.2"
spin = "0.5.2"
volatile = "0.2.7"
