//! Native-host backup subsystem for a single-file database.
//!
//! The library models the file system as a value (a map from paths to file
//! contents plus a set of directories) and verifies the backup, restore and
//! export operations as transitions on that model.  The surrounding
//! application performs the real disk accesses, mirroring these transitions
//! step by step, and reuses the verified path composition, input validation,
//! error rendering and menu dispatch.

pub mod errors;
pub mod fs_model;
pub mod fs_state;
pub mod gateway;
pub mod menu;
pub mod paths;
pub mod transfer;
