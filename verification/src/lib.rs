//! Surgical patching of dependency manifests.
//!
//! The core of this crate is a structured-text field patcher: it walks a
//! TOML-like or YAML-like document line by line, tracks which section the
//! current line belongs to, and rewrites only the version / revision fields
//! of the dependencies named in an update request, leaving every other byte
//! of the document untouched.  Around that core sit the small pure helpers
//! of the update tool: version formatting, `Cargo.lock` scanning, audit
//! record assembly and command planning.

pub mod audit;
pub mod cargo_lock;
pub mod cargo_toml;
pub mod cli;
pub mod config;
pub mod cts;
pub mod delta;
pub mod helpers;
pub mod line_parse;
pub mod naga_update;
pub mod patch_laws;
pub mod patcher;
pub mod shell_cmd;
pub mod strutil;
pub mod update;
pub mod version;
pub mod wgpu_update;
