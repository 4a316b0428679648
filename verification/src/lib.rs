//! Context switcher for a secrets-management client.
//!
//! The library keeps a list of named connection profiles, renders the
//! selected profile as a block of shell `export` lines, tracks the
//! previously active profile, and keeps the user's shell startup files
//! sourcing the generated environment file.  Everything here is pure:
//! the binary around the library reads and writes the actual files and
//! hands their contents in as plain strings.
//!
//! - [`model`]: the profile record and its constrained enumerations.
//! - [`store`]: lookup, exhaustive delete, first-match rename, seed.
//! - [`codec`]: the store file format, with a proved round trip.
//! - [`render`]: the environment block, lines in a fixed order.
//! - [`context`]: what a selection or a recall does to the state files.
//! - [`shell`]: keeping an rc file sourcing the environment file once.
//! - [`cli`]: the flag set and the one-action-per-invocation rule.

pub mod cli;
pub mod codec;
pub mod context;
pub mod model;
pub mod render;
pub mod shell;
pub mod store;
pub mod text;
