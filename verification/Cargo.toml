[package]
name = "zizmor_core"
version = "0.1.0"
edition = "2021"
publish = false

[dependencies]
github-actions-models = "*"
github-actions-expressions = "*"
indexmap = "*"
serde_json = "*"
yaml_serde = "*"
subfeature = "*"
anyhow = "*"
async-trait = "*"
