[package]
name = "impersonate"
version = "0.1.0"
edition = "2021"
publish = false

[dependencies]
boring2 = { version = "=4.15.15", features = ["cert-compression", "pq-experimental"] }
boring-sys2 = "=4.15.15"
foreign-types = "=0.5.0"
log = "=0.4.34"
