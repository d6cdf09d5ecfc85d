//! A verified configuration compiler for sandboxed containers.
//!
//! The crate resolves a declarative container description (a set of
//! capability toggles plus per-container overrides) together with a
//! snapshot of the process environment and the current user id into one
//! ordered argument list for a container runtime's `run` or `build`
//! subcommand.  All merging, precedence and ordering rules live here and
//! are verified; reading files, the real environment and spawning the
//! runtime are left to an unverified shell around this library.

pub mod args;
pub mod container;
pub mod errors;
pub mod laws;
pub mod lex;
pub mod snapshot;
pub mod text;
pub mod toggles;
