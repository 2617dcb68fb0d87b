//! Verified core of a RAM-backed file system for the Linux kernel.
//!
//! The kernel hands this library plain values (object addresses, mode bits,
//! mount-option text, results of kernel calls), and the library decides what
//! to do with them: it classifies inode modes, plans the kernel calls that
//! set up a new inode, parses mount options and buffers kernel log output.
//! The glue that touches kernel memory lives outside this crate.

pub mod handles;
pub mod mode;
pub mod options;
pub mod cstring;
pub mod ops;
pub mod writer;
