[package]
name = "bevy_enhanced_input"
version = "0.1.0"
edition = "2021"
publish = false

[dependencies]
bevy = { version = "0.16", default-features = false }
variadics_please = "1"
