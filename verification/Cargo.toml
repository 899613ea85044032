[package]
name = "twizzler_core"
version = "0.1.0"
edition = "2021"
publish = false

[dependencies]
acpi = "=4.1.1"
bitflags = "=1.3.2"
clap = { version = "=3.2.25", features = ["derive"] }
lazy_static = "=1.4.0"
memoffset = "=0.6.5"
strum = "=0.24.1"
strum_macros = "=0.24.3"
