[package]
name = "phistar-radio"
version = "0.1.0"
edition = "2021"
publish = false

[dependencies]
embedded-hal = "=1.0.0"
thiserror-no-std = "=2.0.2"
cortex-m = "0.7"
defmt = "1"
defmt-rtt = "1"
panic-probe = "1"
fugit = "0.3"
