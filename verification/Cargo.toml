[package]
name = "deno_bundler"
version = "0.1.0"
edition = "2021"
publish = false

[dependencies]
anyhow = "=1.0.104"
askama = "=0.11.1"
async-trait = "=0.1.92"
base64 = "=0.13.1"
data-url = "=0.3.2"
deno_ast = { version = "=0.17.0", features = ["bundler", "cjs", "codegen", "dep_graph", "module_specifier", "proposal", "react", "sourcemap", "transforms", "transpiling", "typescript", "view", "visit"] }
deno_core = "=0.147.0"
deno_graph = "=0.30.0"
derive_builder = "=0.11.2"
dirs = "=4.0.0"
futures = "=0.3.34"
glob = "=0.3.4"
log = "=0.4.34"
once_cell = "=1.21.4"
reqwest = "=0.11.27"
serde = { version = "=1.0.219", features = ["derive"] }
serde_json = { version = "=1.0.143", features = ["preserve_order"] }
swc_ecma_minifier = "0.136"
swc_macros_common = "=0.3.6"
tokio = { version = "=1.54.1", features = ["sync", "fs", "rt", "macros"] }
url = "=2.5.8"
zstd = "=0.11.2+zstd.1.5.2"
