[package]
name = "dcs_ts"
version = "0.1.0"
edition = "2021"
publish = false

[dependencies]
serde_json = "*"
serde = { version = "*", features = ["derive"] }
tokio = { version = "*", features = ["sync", "rt", "time", "macros"] }
log = "*"
log4rs = "*"
once_cell = "*"
thiserror = "*"
mlua = { version = "*", features = ["lua54", "serialize", "module"] }
