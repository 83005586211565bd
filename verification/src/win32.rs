//! What is particular to Windows.

pub mod jvm;
pub mod redirect;
pub mod strings;
