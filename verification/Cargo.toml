[package]
name = "mini_calc"
version = "3.4.2"
edition = "2021"
publish = false
