//! The core of a module bundler: the configuration of the transpiler, the
//! preparation of the modules of a dependency graph, the run that merges
//! them into one output, and the assembly of the code and its source map;
//! with the helpers of the runtime that shows errors and makes snapshots.
//!
//! The merge, the minifier and the code generator are the work of other
//! crates. This library decides what is asked of them and what is made of
//! what they give back.

pub mod bundle;
pub mod config;
pub mod data_channel;
pub mod error;
pub mod fmt_errors;
pub mod fs_util;
pub mod graph;
pub mod hook;
pub mod json;
pub mod loader;
pub mod minify;
pub mod output;
pub mod resolver;
pub mod snapshot;
pub mod source;
pub mod text;
pub mod transpile;

pub use bundle::{BundleOptions, BundleOptionsBuilder, BundleRun, BundleType};
pub use config::{get_ts_config, ConfigType, EmitConfigOptions, TranspilerOptions, TsConfig, TypeLib};
pub use error::BundleError;
pub use hook::BundleHook;
pub use loader::BundleLoader;
pub use output::gen_code;
pub use resolver::BundleResolver;
