//! Detection of outside changes to a tool's configuration, write fingerprints
//! of that configuration, and the resolution of the tool's entry points and
//! companion executables on disk.
pub mod text;
pub mod path;
pub mod companion;
pub mod fingerprint;
pub mod detect;
pub mod install;
