//! A small theme switcher: a theme maps literal search strings to
//! replacement strings, and the tool rewrites a configured list of
//! text files by applying every theme entry to each file in turn.
//!
//! The library holds everything the tool decides and computes: resolving
//! the configuration directory from environment values, the shape of the
//! configuration and of a theme, the substitution engine, and the step
//! function that drives one run. Reading and writing files, environment
//! variables and command-line arguments are left to the binary around it.

pub mod config;
pub mod errors;
pub mod flow;
pub mod paths;
pub mod subst;
pub mod theme;
