[package]
name = "rusty_quack"
version = "0.1.0"
edition = "2021"
publish = false

[dependencies]
duckdb = { version = "=1.1.1", features = ["vtab-loadable"] }
duckdb-loadable-macros = "0.1"
libduckdb-sys = { version = "=1.1.1", features = ["loadable-extension"] }
pyo3 = { version = "0.23", features = ["auto-initialize"] }
