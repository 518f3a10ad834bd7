[package]
name = "kernel"
version = "0.1.0"
edition = "2021"
publish = false

[dependencies]
bootloader_api = "=0.11.17"
ovmf-prebuilt = "=0.1.0-alpha.1"
pic8259 = "=0.10.4"
spin = "=0.9.9"
uart_16550 = "=0.2.19"
x2apic = "0.5"
x86_64 = { version = "=0.14.13", default-features = false, features = ["instructions"] }
