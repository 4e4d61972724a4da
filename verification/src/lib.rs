//! Discovery and classification of projects and repositories below a set of
//! root directories: which manifests a walk found, how healthy each project's
//! release profile is, and how far each repository has moved from its upstream.
//!
//! The library reads no file and runs no program. Its caller walks the
//! directories, reads the manifests and asks the version-control tool, and
//! hands over what it got as plain values; the library decides what they mean.

pub mod cargo;
pub mod config;
pub mod divergence;
pub mod document;
pub mod git;
pub mod hygiene;
pub mod manifest;
pub mod registry;
pub mod report;
pub mod text;
pub mod walker;
