[package]
name = "flatbuf_pool"
version = "0.1.0"
edition = "2021"
publish = false

[dependencies]
flatbuffers = "*"
crossbeam-queue = "*"
once_cell = "*"
parking_lot = "*"
