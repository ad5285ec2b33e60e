//! Compiles a decoded package-manifest document into a validated project
//! description: typed sections, dependency declarations and build targets.

pub mod deps;
pub mod error;
pub mod laws;
pub mod manifest;
pub mod requirement;
pub mod targets;
pub mod tree;
