//! Text in the form the Windows API takes it.

use vstd::prelude::*;
use crate::utils::utf16::{encode_utf16, utf16};

verus! {

/// Text that can be handed to the Windows API: as UTF-16, closed by a zero
/// unit.
pub trait Win32Strings {
    /// The characters of the text.
    spec fn chars(&self) -> Seq<char>;

    /// The text as the Windows API reads it.
    fn to_win32_utf16(&self) -> (units: Vec<u16>)
        ensures
            units@ == utf16(self.chars()).push(0u16),
    ;
}

impl Win32Strings for str {
    open spec fn chars(&self) -> Seq<char> {
        self@
    }

    fn to_win32_utf16(&self) -> (units: Vec<u16>) {
        let mut units = encode_utf16(self);
        units.push(0);
        units
    }
}

impl Win32Strings for String {
    open spec fn chars(&self) -> Seq<char> {
        self@
    }

    fn to_win32_utf16(&self) -> (units: Vec<u16>) {
        let mut units = encode_utf16(self.as_str());
        units.push(0);
        units
    }
}

} // verus!
