[package]
name = "nft_queries"
version = "0.1.0"
edition = "2021"
publish = false

[dependencies]
diesel = { version = "1.4", features = ["postgres"] }

[dev-dependencies]
tera = { version = "1", default-features = false }
