[package]
name = "dosio"
version = "0.1.0"
edition = "2021"
publish = false

[dependencies]
serde = { version = "*", features = ["derive"] }
thiserror = "*"
proc-macro2 = "*"
quote = "*"
zip = "*"
parquet = "*"
arrow = "*"
hdf5 = "*"
crseo = "*"
