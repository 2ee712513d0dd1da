//! Packaging a binary for release.
//!
//! A run resets the build workspace, builds the binary for each target,
//! reads the package's version, archives each binary in a fresh staging
//! directory, fingerprints it, publishes the archives as assets of the
//! release tagged with the version, and removes the staging directory again.
//!
//! This library decides; it does not act. It holds the command lines, the
//! names of the files, the reading of the version, the fingerprinting and
//! the order of the steps, each with a contract that is proved. Starting
//! processes and touching files is left to the caller, who is told what to
//! do by a [`run::Run`] and reports back what came of it.
pub mod args;
pub mod command;
pub mod digest;
pub mod failure;
pub mod laws;
pub mod model;
pub mod naming;
pub mod records;
pub mod report;
pub mod run;
pub mod text;
pub mod version;
