//! A layered configuration container: ordered sources are merged into one
//! dynamic tree, the tree is decoded into a typed value, and the result can be
//! overridden at run time and refreshed when a source changes.

pub mod config;
pub mod config_loader;
pub mod error;
pub mod laws;
pub mod layer;
pub mod merge;
pub mod parse;
pub mod path;
pub mod tree;
pub mod typed;
pub mod watch;
pub mod watch_handle;

pub use config::Config;
pub use config_loader::ConfigLoader;
pub use error::ConfigError;
pub use tree::Tree;
pub use watch_handle::WatchHandle;
