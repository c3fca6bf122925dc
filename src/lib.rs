//! The build-configuration and artifact-identity layer of a package build
//! tool: crate kinds, build profiles with their fingerprints, targets and
//! package manifests.

pub mod kind;
pub mod profile;
pub mod package;
pub mod target;
pub mod manifest;
pub mod shell;
pub mod laws;
