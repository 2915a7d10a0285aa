[package]
name = "syscall2struct"
version = "0.1.0"
edition = "2021"
publish = false

[dependencies]
clap = { version = "4", features = ["derive"] }
codegen = "*"
convert_case = "*"
heapless = "0.8"
uuid = { version = "1", features = ["serde"] }
serde = { version = "1", features = ["derive"] }
syn = { version = "2", features = ["full"] }
quote = "1"
proc-macro2 = "1"
syzlang-parser = "*"
enum_index = "*"
enum_index_derive = "*"

[dev-dependencies]
