[package]
name = "nu_psql"
version = "0.1.0"
edition = "2021"
publish = false

[dependencies]
postgres = "0.19"
nu-plugin = "0.44"
nu-protocol = "0.44"
nu-errors = "0.44"
nu-source = "0.44"
