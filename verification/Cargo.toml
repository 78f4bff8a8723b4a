[package]
name = "kernel"
version = "0.1.0"
edition = "2021"
publish = false

[dependencies]
x86_64 = { version = "=0.14.13", default-features = false, features = ["instructions"] }
spin = "=0.9.9"
lazy_static = { version = "=1.5.1", features = ["spin_no_std"] }
linked_list_allocator = "=0.10.6"
