[package]
name = "sitesearch"
version = "0.1.0"
edition = "2021"
publish = false

[dependencies]
tantivy = "*"
rand = "*"
actix-web = "*"
actix-rt = "*"
dotenv = "*"
once_cell = "*"
sitemap = "*"
