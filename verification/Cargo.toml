[package]
name = "warper"
version = "0.1.0"
edition = "2021"
publish = false

[dependencies]
wassily = "*"
rayon = "*"
directories = "*"
rand = "*"
