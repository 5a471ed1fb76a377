[package]
name = "phipsboot"
version = "0.1.0"
edition = "2021"
publish = false

[dependencies]
multiboot2 = "=0.28.0"
log = "=0.4.34"
good_memory_allocator = "=0.1.7"
uart_16550 = "=0.8.1"
x86 = "=0.52.0"
x86_64 = { version = "=0.15.5", default-features = false, features = ["instructions"] }
