[package]
name = "rs_routine"
version = "0.1.0"
edition = "2021"
publish = false

[dependencies]
crossbeam-deque = "0.8"
num_cpus = "1"
once_cell = "1"
