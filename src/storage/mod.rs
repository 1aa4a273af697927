//! File-like storage under three roots (data, config, cache).
//!
//! - [`memory`]: an in-process store shared by every handle derived from one storage value.
//! - [`standard`]: where the file system backend puts its roots.
//! - [`web`]: how the browser backend keeps text and bytes in a flat string store.

pub mod address;
pub mod boxable;
mod generic;
pub mod memory;
pub mod standard;
pub mod web;

pub use address::Root;
pub use generic::{
    Dir, File, IoError, OuterDirectoryError, ParentDir, Storage, WritableDir, WritableFile,
    WritableParentDir,
};
pub use memory::MemoryStorage;
