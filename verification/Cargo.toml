[package]
name = "erc20"
version = "0.1.0"
edition = "2021"
publish = false

[dependencies]
ink_primitives = { version = "=3.0.0-rc7", default-features = false, features = ["std"] }
ink_metadata = { version = "=3.0.0-rc7", default-features = false, features = ["derive", "std"] }
ink_env = { version = "=3.0.0-rc7", default-features = false, features = ["std"] }
ink_storage = { version = "=3.0.0-rc7", default-features = false, features = ["std"] }
ink_lang = { version = "=3.0.0-rc7", default-features = false, features = ["std"] }
parity-scale-codec = { version = "2", default-features = false, features = ["derive", "std"] }
scale-info = { version = "1", default-features = false, features = ["derive", "std"] }
