[package]
name = "i3blocks-playerctl"
version = "0.1.0"
edition = "2021"
publish = false

[dependencies]
envconfig = "0.11.1"
