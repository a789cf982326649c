[package]
name = "axvm"
version = "0.1.0"
edition = "2021"
publish = false

[dependencies]
iced-x86 = { version = "*", default-features = false, features = ["std", "decoder", "instr_info"] }
page_table_entry = "*"
spin = "*"
