[package]
name = "withd"
version = "0.1.0"
edition = "2021"
publish = false

[dependencies]
bstr = "*"
clap = { version = "4", features = ["derive", "env", "cargo"] }
clap_complete = "4"
nix = { version = "*", features = ["signal"] }
tempfile = "3"
thiserror = "*"

[dev-dependencies]
lazy-regex = "*"
