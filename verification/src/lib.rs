//! Core of a tiny synthetic filesystem: a root directory holding one regular
//! file whose content is a freshly randomized value rendered as hexadecimal
//! text. The four request operations (resolve a name, query attributes, read
//! bytes, list a directory) are pure functions over a small handler state;
//! the kernel-bridge transport around them lives outside this crate.

pub mod attrs;
pub mod handler;
pub mod hex;
