[package]
name = "brainmade"
version = "0.1.0"
edition = "2021"
publish = false

[dependencies]
color-eyre = "0.6"
hypertext = "0.5"
pulldown-cmark = "0.10"
