//! The decision logic of a caching pass-through filesystem.
//!
//! A mount presents a *source* directory tree; every file that is read or
//! written through it is also kept in a *cache* directory. This crate holds
//! the rules that decide when a cache file stands for its source file, how
//! reads, writes and flushes proceed against the two, which cache files are
//! evicted when space runs low, and how inodes and handles are kept. It does
//! no input or output itself: each operation is a small machine that names
//! the next system call and takes its result.

pub mod bytes;
pub mod checksum;
pub mod dir;
pub mod dir_walker;
pub mod errno;
pub mod error;
pub mod evicter;
pub mod file;
pub mod flags;
pub mod fs;
pub mod inode;
pub mod laws;
pub mod namespace;
pub mod open;
pub mod options;
pub mod pagein;
pub mod path;
pub mod rlibc;
pub mod stat;
pub mod store;
pub mod transfer;
