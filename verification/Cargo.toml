[package]
name = "todo_list"
version = "0.1.0"
edition = "2021"
publish = false

[dependencies]
sixtyfps = { version = "=0.1.5", default-features = false }
sixtyfps-interpreter = { version = "=0.1.5", default-features = false, features = ["display-diagnostics"] }
spin_on = "=0.1.1"
