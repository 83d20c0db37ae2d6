[package]
name = "rusmux"
version = "0.1.0"
edition = "2021"
publish = false

[dependencies]
regex = "1"
shell-escape = "0.1"
shellexpand = "3"
shlex = "1"
serde = { version = "1", features = ["derive"] }
serde_yaml = "0.9"
thiserror = "1"
clap = { version = "4", features = ["cargo"] }
colored = "2"
dialoguer = "0.11"
directories = "5"
glob = "0.3"
which = "4"
