[package]
name = "novax_price_getter"
version = "0.1.0"
edition = "2021"
publish = false

[dependencies]
num-bigint = "=0.4.8"
num-rational = "=0.4.2"
num-traits = "=0.2.19"
novax = "=0.2.12"
novax-caching = "=0.2.12"
novax-token = "=0.2.12"
tokio = { version = "=1.53.2", features = ["macros", "rt-multi-thread"] }
