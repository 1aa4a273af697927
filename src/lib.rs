//! Minimal cross-platform support for common platform specific things, intended for small games
//! for web plus desktop platforms: file-like storage, command line options and exiting.

mod availability;
pub mod cmd_line;
pub mod exit;
pub mod storage;

pub use availability::AvailabilityError;
