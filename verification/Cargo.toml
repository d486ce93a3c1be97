[package]
name = "narrow_contacts"
version = "0.1.0"
edition = "2021"
publish = false

[dependencies]
nalgebra = "*"
approx = "*"
