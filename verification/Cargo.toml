[package]
name = "pg_search"
version = "0.1.0"
edition = "2021"
publish = false

[dependencies]
anyhow = "=1.0.104"
crossbeam = "=0.8.5"
pgrx = "=0.12.9"
serde_json = "=1.0.154"
tantivy = "=0.22.1"
thiserror = "=1.0.69"
