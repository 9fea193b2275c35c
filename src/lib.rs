//! Typed configuration files: where they live, and the protocol by which
//! they are loaded, provisioned, repaired and stored.
//!
//! The library decides; the caller performs. Path resolution is computed
//! here in full. Loading and storing are driven by [`engine::Engine`], a
//! verified state machine that names each file-system or codec step to
//! perform and is told how it went, so that the failure handling, the
//! default-on-missing rule and the encode-before-write ordering are proved
//! once, for every outcome of every step.

pub mod error;
pub mod paths;
pub mod engine;
pub mod laws;
pub mod utils;

pub use engine::{Action, Engine, Event, Outcome};
pub use error::ConfyError;
pub use paths::get_configuration_file_path;
pub use utils::{scaffold_directories, CheckedStringRead};
