[package]
name = "libcontainer"
version = "0.1.0"
edition = "2021"
publish = false

[dependencies]
nix = { version = "*", default-features = false, features = ["signal"] }
oci-spec = "*"
thiserror = "*"
