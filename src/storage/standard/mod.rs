//! The rules of the file backend: where its root directories go. The directories themselves
//! are resolved, created and read by the caller.

pub mod storage;
