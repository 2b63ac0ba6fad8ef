[package]
name = "noodlex"
version = "0.1.0"
edition = "2021"
publish = false

[dependencies]
itertools = "=0.10.5"
noodles-vcf = "0.16"
rustler = "=0.32.1"
