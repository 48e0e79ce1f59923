[package]
name = "sitegen"
version = "0.1.0"
edition = "2021"
publish = false

[dependencies]
actix-files = "*"
actix-web = "*"
handlebars = "*"
pulldown-cmark = "*"
serde_yaml = "*"
walkdir = "*"
