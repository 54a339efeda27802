//! Type-checked lookup of functions exported by a dynamically loaded plugin.
//!
//! A plugin carries an export table: an ordered list of entries, each made of
//! a type identifier, a name and the address of a function. A lookup hands out
//! a function only when both the name and the type identifier that the caller
//! expects agree with an entry, so a function is never called through a
//! signature other than the one it was exported with.

pub mod error;
pub mod handle;
pub mod image;
pub mod table;
