[package]
name = "hello_form"
version = "0.1.0"
edition = "2021"
publish = false

[dependencies]
rocket = "0.5"
rocket_dyn_templates = { version = "0.1", features = ["handlebars"] }
