//! Verified core of a desktop application's backend.
//!
//! The backend is glue between a host runtime and ready-made plugins. What it
//! decides for itself is little, and all of it is here:
//!
//! - [`existence`]: what the check made before a save reports, given what the
//!   platform answered about the target path;
//! - [`capability`]: which plugin capabilities are attached at startup.
//!
//! Asking the platform and starting the runtime are the caller's work.

pub mod capability;
pub mod existence;
