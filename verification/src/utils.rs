//! Helpers shared by the other modules.

pub mod errors;
pub mod java;
pub mod strings;
pub mod utf16;
