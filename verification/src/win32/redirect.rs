//! Pointing the standard streams of the process at another file, on Windows.

use vstd::prelude::*;

verus! {

/// `windows_sys::Win32::System::Console::STD_OUTPUT_HANDLE`, the number under
/// which the standard output handle is kept: 4294967285, that is -11.
#[verifier::external_body]
pub(crate) fn std_output_handle() -> (id: u32)
    ensures
        id == 4294967285u32,
{
    windows_sys::Win32::System::Console::STD_OUTPUT_HANDLE
}

/// `windows_sys::Win32::System::Console::STD_ERROR_HANDLE`, the number under
/// which the standard error handle is kept: 4294967284, that is -12.
#[verifier::external_body]
pub(crate) fn std_error_handle() -> (id: u32)
    ensures
        id == 4294967284u32,
{
    windows_sys::Win32::System::Console::STD_ERROR_HANDLE
}

/// `windows_sys::Win32::Foundation::HANDLE_FLAG_INHERIT`, the flag that lets
/// child processes inherit a handle: one.
#[verifier::external_body]
pub(crate) fn handle_flag_inherit() -> (flag: u32)
    ensures
        flag == 1u32,
{
    windows_sys::Win32::Foundation::HANDLE_FLAG_INHERIT
}

/// `windows_sys::Win32::Foundation::TRUE`: one.
#[verifier::external_body]
pub(crate) fn win32_true() -> (value: i32)
    ensures
        value == 1,
{
    windows_sys::Win32::Foundation::TRUE
}

/// `windows_sys::Win32::Foundation::FALSE`: zero.
#[verifier::external_body]
pub(crate) fn win32_false() -> (value: i32)
    ensures
        value == 0,
{
    windows_sys::Win32::Foundation::FALSE
}

/// A standard stream that the launcher redirects.
#[derive(Debug, Clone, Copy, PartialEq, Eq, Structural)]
pub enum StandardInputOutput {
    Output,
    Error,
}

impl StandardInputOutput {
    /// The number under which the system keeps the stream's handle.
    pub open spec fn handle_number(self) -> u32 {
        match self {
            StandardInputOutput::Output => 4294967285u32,
            StandardInputOutput::Error => 4294967284u32,
        }
    }

    /// The number under which the system keeps the stream's handle.
    pub fn handle_id(&self) -> (id: u32)
        ensures
            id == self.handle_number(),
    {
        match self {
            StandardInputOutput::Output => std_output_handle(),
            StandardInputOutput::Error => std_error_handle(),
        }
    }
}

/// What has to be done to redirect a stream: the handle is made inheritable by
/// setting the flags in `flag_mask` to `flag_value`, and then put in the place
/// `std_handle`.
#[derive(Debug, Clone, Copy, PartialEq, Eq, Structural)]
pub struct Substitution {
    pub flag_mask: u32,
    pub flag_value: u32,
    pub std_handle: u32,
}

/// The substitution that makes `stdio` refer to a file.
pub fn set_standard_input_output(stdio: StandardInputOutput) -> (step: Substitution)
    ensures
        step == (Substitution { flag_mask: 1, flag_value: 1, std_handle: stdio.handle_number() }),
{
    Substitution { flag_mask: handle_flag_inherit(), flag_value: 1, std_handle: stdio.handle_id() }
}

/// Whether the process has just been given a console of its own, which is
/// then to be hidden: the call that asks for one has returned `TRUE`.
pub fn console_allocated(returned: i32) -> (hide: bool)
    ensures
        hide == (returned == 1),
{
    returned == win32_true()
}

/// Whether a call that reports success as a truth value has failed: it has
/// returned `FALSE`.
pub fn call_failed(returned: i32) -> (failed: bool)
    ensures
        failed == (returned == 0),
{
    returned == win32_false()
}

} // verus!
