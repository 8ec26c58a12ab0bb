//! Utilities for loading configuration files from a folder and for
//! back-filling partially specified configuration records from defaults.

pub mod backfill;
pub mod errors;
pub mod loader;
pub mod policy;
mod text;

pub use backfill::{BackFillable, Config, ConfigApp};
pub use errors::ConfigError;
pub use loader::{extension_matches, file_selected, select_files};
pub use policy::is_file_extension_supported;
