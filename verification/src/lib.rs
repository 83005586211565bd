//! Logic of a launcher that finds a Java runtime, starts the hosted
//! application in it and keeps the application's output in rotating log
//! files. Every decision the launcher takes is a function of this library;
//! the surrounding program performs the system calls and reports what came
//! back.
//!
//! - `locator` searches for the runtime library, with `linux::jvm` and
//!   `win32::jvm` for the two platforms.
//! - `jvm` brings the runtime up step by step and shuts it down once.
//! - `startup` makes the parameters of the application and puts them in the
//!   form in which Java takes them.
//! - `launch` leads from the located library to the destroyed runtime.
//! - `logging` tells the worker that drains the standard output when to put
//!   the log file aside.
//! - `dirs`, `metadata`, `options` and `utils` hold what these need.

pub mod dirs;
pub mod jvm;
pub mod launch;
pub mod linux;
pub mod locator;
pub mod logging;
pub mod metadata;
pub mod options;
pub mod startup;
pub mod utils;
pub mod win32;
