//! Compile-time registration engine for an application framework.
//!
//! Declarations (structs and enums) carry marker attributes naming a type
//! path to register. The library scans a module's declarations, resolves
//! and validates each marked path, accumulates the canonical path strings
//! per registration kind in a per-file session, and synthesizes the text of
//! an initializer that issues one registration call per accumulated path.

pub mod codegen;
pub mod errors;
pub mod function_plugin;
pub mod laws;
pub mod module_plugin;
pub mod state;
pub mod strutil;
pub mod syntax;
pub mod util;
