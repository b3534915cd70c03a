//! Bundling and relaunching a command-line program as a macOS application
//! bundle, so that it can reach OS services that only bundled applications
//! get.
//!
//! The protocol: probe whether the process already runs from a bundle; if
//! not, plan the bundle (its paths, its manifest and the filesystem
//! operations that make it), build it, spawn the bundled copy, wait for it,
//! and leave with its exit code.

pub mod application;
pub mod builder;
pub mod error;
pub mod identifier;
pub mod install;
pub mod layout;
pub mod manifest;
pub mod path;
pub mod platform;
pub mod relaunch;
pub mod trampoline;

pub use application::Application;
pub use error::BundleError;
pub use install::InstallDir;
pub use platform::{MainThreadMarker, NSApplication, NSBundle, Platform, Retained, bundle};
pub use trampoline::{BundlePlan, Trampoline};
