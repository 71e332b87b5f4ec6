[package]
name = "cxx_qt_gen"
version = "0.1.0"
edition = "2021"
publish = false

[dependencies]
clang-format = "0.1"
convert_case = "0.4"
proc-macro2 = "1.0"
quote = "1.0"
syn = { version = "1.0", features = ["full", "extra-traits"] }
