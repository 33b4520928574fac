//! Scaffolding engine for oflike-metal application projects.
//!
//! The library validates a project request, locates the enclosing framework
//! installation, resolves requested addons, plans how each addon is wired into
//! the new project tree, and synthesizes the source stubs and the two build
//! manifests.  Everything here is pure: the functions compute file contents,
//! relative paths and integration plans from plain values, and the thin shell
//! around the library performs the actual filesystem and process work.

pub mod addons;
pub mod config;
pub mod error;
pub mod manifests;
pub mod pipeline;
pub mod root;
pub mod templates;
pub mod text;
pub mod utils;
