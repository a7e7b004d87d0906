//! Logic of a background agent that keeps the Windows light/dark appearance
//! in step with the Night Light feature.
//!
//! Everything that decides something lives here, verified: the decoder for
//! the Night Light state blob, the projection of the decoded state onto the
//! two appearance flags, the parsing and composition of the logon Run value,
//! and the planning of install and uninstall. The surrounding binary performs
//! the registry, filesystem and process operations that the plans call for.

pub mod config;
pub mod decoder;
pub mod installer;
pub mod model;
pub mod paths;
pub mod projector;
pub mod reconciler;
pub mod run_value;
pub mod strutil;

pub use config::Args;
pub use installer::install;
pub use installer::uninstall;
pub use reconciler::update_theme;
pub use run_value::run_strip_args;
