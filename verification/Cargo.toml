[package]
name = "vsock_core"
version = "0.1.0"
edition = "2021"
publish = false

[dependencies]
virtio-spec = "*"
endian-num = { version = "*", features = ["linux-types"] }
hermit-sync = "*"
x86 = { version = "0.52", default-features = false }
