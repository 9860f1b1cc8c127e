[package]
name = "ioapic"
version = "0.1.0"
edition = "2021"
publish = false

[dependencies]
remain = "0.2"
