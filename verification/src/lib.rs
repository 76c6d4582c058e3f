//! A library for managing LaTeX document projects: locating a project's root
//! directory, scanning the main document for glossary and bibliography
//! packages, selecting stale build artifacts to delete, and planning the
//! sequence of external toolchain passes that produce the final document.
//!
//! Every path, document and message is handled as plain bytes, so the whole
//! logic is verified; the thin binary around this crate performs the actual
//! file-system probes and process spawns and feeds the results back in.

pub mod ascii;
pub mod clean;
pub mod compile;
pub mod config;
pub mod init;
pub mod locate;
pub mod logs;
pub mod paths;
pub mod pipeline;
pub mod scan;
