[package]
name = "dorp"
version = "0.1.0"
edition = "2021"
publish = false

[dependencies]
image = "*"
glium = "*"
scoped_threadpool = "*"
