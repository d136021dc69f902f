[package]
name = "err_trail"
version = "0.1.0"
edition = "2021"
publish = false

[dependencies]
tracing = { version = "0.1", default-features = false }
log = "0.4"
defmt = "1"
exit-no-std = "*"
