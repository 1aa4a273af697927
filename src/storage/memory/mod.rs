//! In-process storage: a file system shared by every handle derived from one [`MemoryStorage`].

pub mod file_sys;
pub mod readers_writers;
pub mod storage;

pub use storage::MemoryStorage;
