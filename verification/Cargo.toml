[package]
name = "raylib_interactive"
version = "0.1.0"
edition = "2021"
publish = false

[dependencies]
regex = "1"
arboard = "3"
raylib = "5"
