[package]
name = "starsight"
version = "0.3.0"
edition = "2021"
publish = false

[dependencies]
svg = "=0.18.0"
prismatica = { version = "=1.0.0", features = ["d3"] }
chromata = "=1.0.0"
tiny-skia = "=0.12.0"
cosmic-text = "=0.19.0"
thiserror = "=2.0.21"
