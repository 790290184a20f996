[package]
name = "diesel_full_text_search"
version = "0.1.0"
edition = "2021"
publish = false

[dependencies]
byteorder = "1"
diesel = { version = "2.2", default-features = false, features = ["postgres_backend"] }
