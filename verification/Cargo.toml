[package]
name = "emu8086"
version = "0.1.0"
edition = "2021"
publish = false

[dependencies]
queues = "1"
console = "0.15"
libc = "0.2"
eframe = "0.16"
wfd = "0.1"
