[package]
name = "game_of_life"
version = "0.1.0"
edition = "2021"
publish = false

[dependencies]
oorandom = "11"
embedded-graphics = "0.7.1"
