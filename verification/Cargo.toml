[package]
name = "fugue-idapro"
version = "0.2.0"
edition = "2021"
publish = false

[dependencies]
fugue-db = "*"
tempfile = "3"
thiserror = "1"
url = "2"
which = "4"
