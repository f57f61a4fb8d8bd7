[package]
name = "callgraph"
version = "0.1.0"
edition = "2021"
publish = false

[dependencies]
llvm-ir = { version = "=0.11.3", features = ["llvm-14", "prefer-dynamic"] }
llvm-ir-analysis = { version = "=0.4.0", features = ["llvm-14"] }
log = "=0.4.34"
rustc-demangle = "=0.1.28"
thiserror = "=1.0.69"
walkdir = "=2.5.0"
