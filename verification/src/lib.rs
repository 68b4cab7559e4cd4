//! Infers the kind of project in a directory from its entry names and maps
//! each requested action (lint, build, run) to the external command that
//! serves that kind of project.
//!
//! The crate holds the decision logic only: classifying directory entries,
//! folding candidates into a winning project kind, extracting an identifier
//! from a manifest line, building the command tables, and sequencing the
//! lint / build / run phases. Reading the directory, reading manifest files
//! and spawning child processes are left to the surrounding program.

pub mod binary;
pub mod command;
pub mod manifest;
pub mod phases;
pub mod resolve;
pub mod strutil;
pub mod target;
