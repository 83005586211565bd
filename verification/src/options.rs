//! What the user asks for on the command line.

use vstd::prelude::*;

verus! {

/// The launcher's options.
#[derive(Debug, PartialEq, Eq)]
pub struct Options {
    /// Where the application keeps its data. Empty where the user has named no
    /// directory: the default is then taken.
    pub base_directory: String,
    /// Whether the application is kept from creating a shortcut.
    pub no_shortcut: bool,
    /// Whether the application starts without showing its window.
    pub hide_window: bool,
}

impl Clone for Options {
    fn clone(&self) -> (copy: Self)
        ensures
            copy == *self,
    {
        Options {
            base_directory: self.base_directory.clone(),
            no_shortcut: self.no_shortcut,
            hide_window: self.hide_window,
        }
    }
}

impl Default for Options {
    /// The options of a command line that names none: no directory, and
    /// neither flag set.
    fn default() -> (options: Options)
        ensures
            options.base_directory@ == Seq::<char>::empty(),
            !options.no_shortcut,
            !options.hide_window,
    {
        Options { base_directory: String::new(), no_shortcut: false, hide_window: false }
    }
}

} // verus!
