//! Platform-appropriate base directories for an application's settings, save
//! data, logs and temporary files.
//!
//! The library is pure path computation: every resolver is a total function of
//! the application identity, the operating-system family and a snapshot of the
//! relevant environment variables.  Reading the real environment and creating
//! directories on disk is left to the (unverified) shell around the library.

pub mod casing;
pub mod dir;
pub mod dirs;
pub mod laws;
pub mod platform;

pub use casing::lower_of;
pub use dir::{Dir, PathModel};
pub use dirs::{BaseDirs, IdentityModel};
pub use platform::{Env, EnvModel, OsFamily, home};
