//! Runtime code-patching framework: signature-based memory scanning with
//! wildcard bytes, reversible in-place byte patches and function detours,
//! and a composition layer of user-facing settings bound to those effects,
//! with configuration round-tripping.

pub mod config;
pub mod injections;
pub mod tweaks;
pub mod types;
pub mod memory;
pub mod registry;
