//! Bundle locator and launcher for the Arturo language server.
//!
//! The library decides, from plain values that the host supplies, where the
//! bundled language-server script lives on disk, how to cache that decision,
//! what command line starts the server, and what initialization options it
//! receives. All filesystem probes, writes and host calls happen outside the
//! library; it is handed their outcomes and is verified for every outcome.

pub mod launch;
pub mod options;
pub mod paths;
pub mod resolve;
pub mod text;

pub use launch::CommandDescriptor;
pub use options::{CapabilityOptions, SettingsOptions};
pub use resolve::{ArturoExtension, ProbedPath};
