[package]
name = "the-way"
version = "0.1.0"
edition = "2021"
publish = false

[dependencies]
color-eyre = "0.6"
skim = { version = "0.9", default-features = false }
thiserror = "1"
