//! What is particular to Linux.

pub mod dirs;
pub mod jvm;
pub mod redirect;
