[package]
name = "puissance4"
version = "0.1.0"
edition = "2021"
publish = false

[dependencies]
yew = "0.21"
