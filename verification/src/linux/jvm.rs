//! The Java runtime on Linux: where its library stands, how the loader is
//! told of the library's directory, and how options are handed over.

use vstd::prelude::*;
use vstd::string::*;
use crate::jvm::{build_init_args, is_init_args_of, InitArgs};
use crate::locator::{
    chosen, find_in_runtime_directory, find_runtime_library, find_runtime_library_for, java_root_of,
    library_candidates, located,
    parent_of, path_parent, search_order, text_of, text_of_str, Layout,
};
use crate::utils::errors::LaunchError;

verus! {

/// A runtime directory on Linux: `lib/server/libjvm.so` and `lib/libjvm.so`.
pub open spec fn runtime_layout() -> Layout {
    Layout { separator: '/', server_library: "lib/server/libjvm.so", library: "lib/libjvm.so" }
}

/// The layout of a runtime directory on Linux.
pub fn layout() -> (layout: Layout)
    ensures
        layout == runtime_layout(),
{
    Layout { separator: '/', server_library: "lib/server/libjvm.so", library: "lib/libjvm.so" }
}

/// Looks for the runtime library in the runtime directory `jre_path`: the
/// server library if the probe confirms it, else the plain one if the probe
/// confirms that.
pub fn find_jvm_so_by_jre_path<F: Fn(&str) -> bool>(jre_path: &str, probe: &F) -> (found: Option<
    String,
>)
    requires
        forall|p: &str| call_requires(*probe, (p,)),
    ensures
        chosen(probe, library_candidates(runtime_layout(), jre_path@), text_of(found)),
{
    let layout = layout();
    find_in_runtime_directory(&layout, jre_path, probe)
}

/// Looks for the runtime library, for what the lookup of `java` on the
/// search path has come to: in `jre` below `app_dir`, then in the runtime
/// directory two levels above `java`, then in `java_home`, the directory
/// that the environment names. The result is the first place that the probe
/// confirms, and `NotFound` exactly where it confirms none.
pub fn find_jvm_so_for<F: Fn(&str) -> bool>(
    app_dir: &str,
    java: Option<&str>,
    java_home: Option<&str>,
    probe: &F,
) -> (result: Result<String, LaunchError>)
    requires
        forall|p: &str| call_requires(*probe, (p,)),
    ensures
        located(
            probe,
            search_order(
                runtime_layout(),
                app_dir@,
                java_root_of(text_of_str(java)),
                text_of_str(java_home),
            ),
            result,
        ),
{
    let layout = layout();
    find_runtime_library_for(&layout, app_dir, java, java_home, probe)
}

/// Looks for the runtime library: looks `java` up on the search path and
/// goes on as `find_jvm_so_for` says.
pub fn find_jvm_so<F: Fn(&str) -> bool>(app_dir: &str, java_home: Option<&str>, probe: &F) -> (result:
    Result<String, LaunchError>)
    requires
        forall|p: &str| call_requires(*probe, (p,)),
    ensures
        exists|java: Option<Seq<char>>|
            located(
                probe,
                #[trigger] search_order(
                    runtime_layout(),
                    app_dir@,
                    java_root_of(java),
                    text_of_str(java_home),
                ),
                result,
            ),
{
    let layout = layout();
    find_runtime_library(&layout, app_dir, java_home, probe)
}

/// The value of the loader's search path once `library_dir` stands in front
/// of what it held: the directory alone where the variable was unset or
/// empty, else the directory, a `:`, and the old value unchanged, so that
/// every earlier entry is kept in its place.
pub open spec fn search_path_with(library_dir: Seq<char>, existing: Option<Seq<char>>) -> Seq<char> {
    match existing {
        Some(value) => if value.len() == 0 {
            library_dir
        } else {
            library_dir.push(':') + value
        },
        None => library_dir,
    }
}

/// Puts `library_dir` in front of the loader's search path.
pub fn library_search_path(library_dir: &str, existing: Option<&str>) -> (value: String)
    ensures
        value@ == search_path_with(library_dir@, text_of_str(existing)),
{
    let mut value = String::from_str(library_dir);
    match existing {
        Some(old) => {
            if !old.is_empty() {
                value.push(':');
                value.append(old);
            }
        },
        None => {},
    }
    value
}

/// The loader's search path with the directory of the library at `jvm_so` in
/// front, or `None` where that path has no directory above it.
pub fn search_path_for(jvm_so: &str, existing: Option<&str>) -> (value: Option<String>)
    ensures
        text_of(value) == match path_parent(jvm_so@) {
            Some(dir) => Some(search_path_with(dir, text_of_str(existing))),
            None => None,
        },
{
    match parent_of(jvm_so) {
        Some(dir) => Some(library_search_path(dir.as_str(), existing)),
        None => None,
    }
}

/// The arguments with which the runtime is created on Linux: `args` in
/// UTF-8, each closed by a zero byte, in order. `None` where one of them
/// holds a zero byte and so cannot be handed over.
pub fn build_jvm_init_args(args: &Vec<String>) -> (init: Option<InitArgs>)
    ensures
        is_init_args_of(init, args.deep_view()),
{
    build_init_args(args)
}

} // verus!
