//! The Java runtime on Windows: where its library stands and how options are
//! handed over.

use vstd::prelude::*;
use crate::jvm::{build_init_args, is_init_args_of, InitArgs};
use crate::locator::{
    chosen, find_in_runtime_directory, find_runtime_library, find_runtime_library_for, java_root_of,
    library_candidates, located,
    search_order, text_of, text_of_str, Layout,
};
use crate::utils::errors::LaunchError;

verus! {

/// A runtime directory on Windows: `lib\server\jvm.dll` and `lib\jvm.dll`.
pub open spec fn runtime_layout() -> Layout {
    Layout { separator: '\\', server_library: "lib\\server\\jvm.dll", library: "lib\\jvm.dll" }
}

/// The layout of a runtime directory on Windows.
pub fn layout() -> (layout: Layout)
    ensures
        layout == runtime_layout(),
{
    Layout { separator: '\\', server_library: "lib\\server\\jvm.dll", library: "lib\\jvm.dll" }
}

/// Looks for the runtime library in the runtime directory `jre_path`: the
/// server library if the probe confirms it, else the plain one if the probe
/// confirms that.
pub fn find_jvm_dll_from_jre_path<F: Fn(&str) -> bool>(jre_path: &str, probe: &F) -> (found:
    Option<String>)
    requires
        forall|p: &str| call_requires(*probe, (p,)),
    ensures
        chosen(probe, library_candidates(runtime_layout(), jre_path@), text_of(found)),
{
    let layout = layout();
    find_in_runtime_directory(&layout, jre_path, probe)
}

/// Looks for the runtime library, for what the lookup of `java` on the
/// search path has come to: in `jre` below `app_root`, then in the runtime
/// directory two levels above `java`, then in `java_home`, the directory
/// that the environment names. The result is the first place that the probe
/// confirms, and `NotFound` exactly where it confirms none.
pub fn find_jvm_dll_for<F: Fn(&str) -> bool>(
    app_root: &str,
    java: Option<&str>,
    java_home: Option<&str>,
    probe: &F,
) -> (result: Result<String, LaunchError>)
    requires
        forall|p: &str| call_requires(*probe, (p,)),
    ensures
        located(
            probe,
            search_order(
                runtime_layout(),
                app_root@,
                java_root_of(text_of_str(java)),
                text_of_str(java_home),
            ),
            result,
        ),
{
    let layout = layout();
    find_runtime_library_for(&layout, app_root, java, java_home, probe)
}

/// Looks for the runtime library: looks `java` up on the search path and
/// goes on as `find_jvm_dll_for` says.
pub fn find_jvm_dll<F: Fn(&str) -> bool>(app_root: &str, java_home: Option<&str>, probe: &F) -> (result:
    Result<String, LaunchError>)
    requires
        forall|p: &str| call_requires(*probe, (p,)),
    ensures
        exists|java: Option<Seq<char>>|
            located(
                probe,
                #[trigger] search_order(
                    runtime_layout(),
                    app_root@,
                    java_root_of(java),
                    text_of_str(java_home),
                ),
                result,
            ),
{
    let layout = layout();
    find_runtime_library(&layout, app_root, java_home, probe)
}

/// The arguments with which the runtime is created on Windows: `args` in
/// UTF-8, each closed by a zero byte, in order. `None` where one of them
/// holds a zero byte and so cannot be handed over.
pub fn build_jvm_init_args(args: &Vec<String>) -> (init: Option<InitArgs>)
    ensures
        is_init_args_of(init, args.deep_view()),
{
    build_init_args(args)
}

} // verus!
