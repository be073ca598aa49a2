[package]
name = "ost"
version = "0.1.0"
edition = "2021"
publish = false

[dependencies]
crossbeam-queue = { version = "=0.3.14", default-features = false, features = ["alloc"] }
x86_64 = { version = "=0.15.5", default-features = false, features = ["instructions"] }
pic8259 = "=0.11.0"
spin = "=0.9.9"
lazy_static = "=1.5.1"
volatile = "=0.2.7"
bootloader = { version = "=0.9.35", features = ["map_physical_memory"] }
conquer-once = { version = "=0.4.0", default-features = false }
