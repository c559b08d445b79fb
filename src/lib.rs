//! Verified core of a mod-loader installer: maven coordinate resolution,
//! checksum helpers, library download decisions, processor argument
//! templating and the installation state machine.

pub mod error;
pub mod text;
pub mod maven;
pub mod hash;
pub mod profile;
pub mod processors;
pub mod download;
pub mod java;
pub mod install;
pub mod util;
pub mod events;
pub mod minecraft;
pub mod launcher;
pub mod paths;
pub mod mods;
pub mod routes;
pub mod version_file;
pub mod progress;
