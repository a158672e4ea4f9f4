[package]
name = "meshconv"
version = "0.1.0"
edition = "2021"
publish = false

[dependencies]
byteorder = "1"
tobj = "*"
clap = { version = "4", features = ["derive"] }
chrono = "*"
rbx_binary = "*"
rbx_dom_weak = "*"
rbx_types = "*"
rbx_xml = "*"
serde_json = "1"
