[package]
name = "byeefree_quad"
version = "0.1.0"
edition = "2021"
publish = false

[dependencies]
embassy-executor = { version = "=0.7.0", features = ["arch-spin", "executor-thread", "defmt"] }
embassy-time = { version = "=0.4.0", features = ["defmt"] }
embassy-sync = { version = "=0.6.2", features = ["defmt"] }
embassy-futures = "=0.1.2"
embassy-usb = { version = "=0.4.0", features = ["defmt"] }
embassy-usb-logger = "=0.4.0"
embedded-cli = "=0.2.1"
embedded-io = "=0.6.1"
embedded-io-async = "=0.6.1"
heapless = "=0.8.0"
ufmt = "=0.2.0"
defmt = "=0.3.101"
defmt-rtt = "=0.4.2"
panic-probe = { version = "=0.3.2", features = ["print-defmt"] }
static_cell = "=2.1.1"
libm = "=0.2.16"
nalgebra = { version = "=0.33.3", default-features = false, features = ["libm"] }
num-traits = { version = "=0.2.19", default-features = false }
serde = { version = "=1.0.229", default-features = false, features = ["derive"] }
log = "=0.4.35"
embedded-alloc = "=0.6.0"
paste = "=1.0.15"
