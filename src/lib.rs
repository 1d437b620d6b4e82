//! Pattern-driven batch renaming: wildcard source patterns, positional
//! destination templates, and the decisions of relocating one file.

pub mod args;
pub mod errors;
pub mod fs_utils;
pub mod relocation;
pub mod render_laws;
pub mod run;
pub mod text;
