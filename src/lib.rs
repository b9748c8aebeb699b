//! Drives a two-stage native build: a configure step that generates build
//! files, then a build-file executor, with the configure step skipped when the
//! build directory already holds the generated manifest.
//!
//! The library holds every decision of that sequence: the configuration
//! model, the profile names, the exact argument lists and the order in which
//! commands run or the run stops. Launching the commands and looking at the
//! file system are left to the caller, which feeds the outcomes back in.
pub mod config;
pub mod invocation;
pub mod orchestration;

pub use config::Config;
