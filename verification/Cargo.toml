[package]
name = "mmap_bytebuf"
version = "0.1.0"
edition = "2021"
publish = false

[dependencies]
memmap2 = "=0.4.0"
