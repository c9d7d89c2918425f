[package]
name = "spin_lock"
version = "0.1.0"
edition = "2021"
publish = false

[dependencies]
uart_16550 = "=0.3.2"
