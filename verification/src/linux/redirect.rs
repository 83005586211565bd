//! Pointing the standard streams of the process at another file, on Linux.

use vstd::prelude::*;

verus! {

/// `libc::STDOUT_FILENO`, the descriptor of the standard output stream: one.
#[verifier::external_body]
pub(crate) fn stdout_fileno() -> (fd: i32)
    ensures
        fd == 1,
{
    libc::STDOUT_FILENO
}

/// `libc::STDERR_FILENO`, the descriptor of the standard error stream: two.
#[verifier::external_body]
pub(crate) fn stderr_fileno() -> (fd: i32)
    ensures
        fd == 2,
{
    libc::STDERR_FILENO
}

/// A standard stream that the launcher redirects.
#[derive(Debug, Clone, Copy, PartialEq, Eq, Structural)]
pub enum StandardOutputID {
    Output,
    Error,
}

impl StandardOutputID {
    /// The number of the stream's descriptor.
    pub open spec fn descriptor_number(self) -> i32 {
        match self {
            StandardOutputID::Output => 1,
            StandardOutputID::Error => 2,
        }
    }

    /// The descriptor that has to be replaced to redirect the stream.
    pub fn descriptor(&self) -> (fd: i32)
        ensures
            fd == self.descriptor_number(),
    {
        match self {
            StandardOutputID::Output => stdout_fileno(),
            StandardOutputID::Error => stderr_fileno(),
        }
    }
}

/// What has to be done to redirect a stream: the descriptor `source` is to be
/// duplicated onto `target`.
#[derive(Debug, Clone, Copy, PartialEq, Eq, Structural)]
pub struct Duplication {
    pub source: i32,
    pub target: i32,
}

/// The duplication that makes `stdio` refer to the file behind `fd`.
pub fn set_standard_input_output(stdio: StandardOutputID, fd: i32) -> (step: Duplication)
    ensures
        step == (Duplication { source: fd, target: stdio.descriptor_number() }),
{
    Duplication { source: fd, target: stdio.descriptor() }
}

/// Whether a duplication has failed, given what the system call returned: it
/// returns the new descriptor, and a negative number on failure.
pub fn duplication_failed(returned: i32) -> (failed: bool)
    ensures
        failed == (returned < 0),
{
    returned < 0
}

} // verus!
