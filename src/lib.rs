//! A dotfile manager: packages of configuration files, each described by a
//! manifest, are scaffolded, discovered, installed and removed.
//!
//! This library holds the decisions: which names are valid package tags,
//! where files go, which manifest files are picked up, what an install does
//! for each source/target pair, and how a yes/no answer is read. The program
//! around it performs the file system and console work.
pub mod discover;
pub mod error;
pub mod install;
pub mod manifest;
pub mod package;
pub mod prompt;
pub mod text;
