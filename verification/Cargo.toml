[package]
name = "kvm_init"
version = "0.1.0"
edition = "2021"
publish = false

[dependencies]
kvm-bindings = "*"
nix = { version = "*", features = ["fs", "mman", "ioctl"] }
libc = "*"
