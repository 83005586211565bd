//! The search for the runtime library.
//!
//! The library is looked for in up to three runtime directories, in a fixed
//! order: the one that comes with the application, the one of the `java`
//! program on the search path, and the one that the environment names. In
//! each, the server library is tried before the plain one. Whether a file
//! exists is the program's to say: it hands in a probe, and the search tells
//! by the probe's own answers which file it has chosen.

use vstd::prelude::*;
use crate::utils::errors::LaunchError;
use crate::utils::strings::{join_path_by, joined_by};

verus! {

/// How a platform lays out a runtime directory.
#[derive(Debug, Clone, Copy)]
pub struct Layout {
    /// What separates the parts of a path.
    pub separator: char,
    /// The server library, relative to the runtime directory.
    pub server_library: &'static str,
    /// The plain library, relative to the runtime directory.
    pub library: &'static str,
}

/// The text of an optional string.
pub open spec fn text_of(value: Option<String>) -> Option<Seq<char>> {
    match value {
        Some(text) => Some(text@),
        None => None,
    }
}

/// The text of an optional string slice.
pub open spec fn text_of_str(value: Option<&str>) -> Option<Seq<char>> {
    match value {
        Some(text) => Some(text@),
        None => None,
    }
}

/// Whether `answer` is what `probe` has said, or could say, of `path`.
pub open spec fn answers<F: Fn(&str) -> bool>(probe: &F, path: Seq<char>, answer: bool) -> bool {
    exists|p: &str| p@ == path && #[trigger] call_ensures(*probe, (p,), answer)
}

/// Whether `found` is the choice among `candidates` that goes with the
/// probe's answers: the first candidate that the probe has confirmed, every
/// one before it having been refused; or none, every candidate having been
/// refused.
pub open spec fn chosen<F: Fn(&str) -> bool>(
    probe: &F,
    candidates: Seq<Seq<char>>,
    found: Option<Seq<char>>,
) -> bool {
    match found {
        Some(path) => exists|i: int|
            0 <= i < candidates.len() && #[trigger] candidates[i] == path && answers(
                probe,
                candidates[i],
                true,
            ) && forall|j: int| 0 <= j < i ==> answers(probe, #[trigger] candidates[j], false),
        None => forall|j: int|
            0 <= j < candidates.len() ==> answers(probe, #[trigger] candidates[j], false),
    }
}

/// The two places of the library in the runtime directory `jre_path`, the
/// server library first.
pub open spec fn library_candidates(layout: Layout, jre_path: Seq<char>) -> Seq<Seq<char>> {
    seq![
        joined_by(layout.separator, jre_path, layout.server_library@),
        joined_by(layout.separator, jre_path, layout.library@),
    ]
}

/// The places of the library in a runtime directory that may be unknown: none
/// then.
pub open spec fn optional_candidates(layout: Layout, jre_path: Option<Seq<char>>) -> Seq<
    Seq<char>,
> {
    match jre_path {
        Some(path) => library_candidates(layout, path),
        None => Seq::empty(),
    }
}

/// Every place in which the library is looked for, in the order of the search:
/// below `jre` in the application's directory, below the runtime directory
/// of the `java` program on the search path, and below the runtime directory
/// that the environment names.
pub open spec fn search_order(
    layout: Layout,
    app_root: Seq<char>,
    java_root: Option<Seq<char>>,
    java_home: Option<Seq<char>>,
) -> Seq<Seq<char>> {
    library_candidates(layout, joined_by(layout.separator, app_root, "jre"@))
        + optional_candidates(layout, java_root) + optional_candidates(layout, java_home)
}

/// Asks the probe for each candidate in turn and returns the first that it
/// confirms.
pub fn first_existing<F: Fn(&str) -> bool>(candidates: &Vec<String>, probe: &F) -> (found: Option<
    String,
>)
    requires
        forall|p: &str| call_requires(*probe, (p,)),
    ensures
        chosen(probe, candidates.deep_view(), text_of(found)),
{
    let mut i: usize = 0;
    while i < candidates.len()
        invariant
            i <= candidates.len(),
            forall|p: &str| call_requires(*probe, (p,)),
            forall|j: int|
                0 <= j < i ==> answers(probe, #[trigger] candidates.deep_view()[j], false),
        decreases candidates.len() - i,
    {
        let candidate = candidates[i].as_str();
        let hit = probe(candidate);
        assert(candidates.deep_view()[i as int] == candidate@);
        assert(answers(probe, candidate@, hit));
        if hit {
            return Some(candidates[i].clone());
        }
        i = i + 1;
    }
    None
}

/// Looks for the library in the runtime directory `jre_path`.
pub fn find_in_runtime_directory<F: Fn(&str) -> bool>(
    layout: &Layout,
    jre_path: &str,
    probe: &F,
) -> (found: Option<String>)
    requires
        forall|p: &str| call_requires(*probe, (p,)),
    ensures
        chosen(probe, library_candidates(*layout, jre_path@), text_of(found)),
{
    let mut candidates: Vec<String> = Vec::new();
    candidates.push(join_path_by(layout.separator, jre_path, layout.server_library));
    candidates.push(join_path_by(layout.separator, jre_path, layout.library));
    assert(candidates.deep_view() =~= library_candidates(*layout, jre_path@));
    first_existing(&candidates, probe)
}

/// The directory that holds the file or directory at `path`, as
/// `std::path::Path::parent` tells it on the platform the program is built
/// for; `None` where there is none above it.
pub uninterp spec fn path_parent(path: Seq<char>) -> Option<Seq<char>>;

/// `std::path::Path::parent`: the path without its last part, `None` where it
/// ends in a root or is empty. The result is a part of the text that was
/// handed in, and so depends on nothing else.
#[verifier::external_body]
pub(crate) fn parent_of(path: &str) -> (parent: Option<String>)
    ensures
        text_of(parent) == path_parent(path@),
{
    std::path::Path::new(path).parent().map(|p| p.to_string_lossy().into_owned())
}

/// `which::which`, asked for `java`: the first program of that name in the
/// directories of the search path, or `None` where there is none. The answer
/// depends on the environment and on what is on disk, so nothing is claimed
/// of it.
#[verifier::external_body]
pub(crate) fn which_java() -> (path: Option<String>) {
    which::which("java").ok().map(|p| p.to_string_lossy().into_owned())
}

/// The runtime directory of the `java` program at `java`: two levels above
/// it.
pub open spec fn runtime_root_of(java: Seq<char>) -> Option<Seq<char>> {
    match path_parent(java) {
        Some(bin) => path_parent(bin),
        None => None,
    }
}

/// The directory that holds `path`.
pub fn parent_directory(path: &str) -> (parent: Option<String>)
    ensures
        text_of(parent) == path_parent(path@),
{
    parent_of(path)
}

/// The runtime directory that the `java` program at `java` belongs to.
pub fn runtime_root(java: &str) -> (root: Option<String>)
    ensures
        text_of(root) == runtime_root_of(java@),
{
    match parent_of(java) {
        Some(bin) => parent_of(bin.as_str()),
        None => None,
    }
}

/// A choice among `first` stays the choice when more candidates follow, and
/// where every one of `first` was refused the choice among `second` is the
/// choice among both.
pub proof fn lemma_chosen_in_sequence<F: Fn(&str) -> bool>(
    probe: &F,
    first: Seq<Seq<char>>,
    second: Seq<Seq<char>>,
    found: Option<Seq<char>>,
)
    requires
        (found is Some && chosen(probe, first, found)) || (chosen(probe, first, None) && chosen(
            probe,
            second,
            found,
        )),
    ensures
        chosen(probe, first + second, found),
{
    let all = first + second;
    if found is Some && chosen(probe, first, found) {
        let i = choose|i: int|
            0 <= i < first.len() && #[trigger] first[i] == found->0 && answers(
                probe,
                first[i],
                true,
            ) && forall|j: int| 0 <= j < i ==> answers(probe, #[trigger] first[j], false);
        assert(all[i] == first[i]);
        assert forall|j: int| 0 <= j < i implies answers(probe, #[trigger] all[j], false) by {
            assert(all[j] == first[j]);
        }
    } else {
        assert forall|j: int| 0 <= j < first.len() implies answers(
            probe,
            #[trigger] all[j],
            false,
        ) by {
            assert(all[j] == first[j]);
        }
        match found {
            Some(path) => {
                let i = choose|i: int|
                    0 <= i < second.len() && #[trigger] second[i] == path && answers(
                        probe,
                        second[i],
                        true,
                    ) && forall|j: int| 0 <= j < i ==> answers(probe, #[trigger] second[j], false);
                let k = first.len() + i;
                assert(all[k] == second[i]);
                assert forall|j: int| 0 <= j < k implies answers(
                    probe,
                    #[trigger] all[j],
                    false,
                ) by {
                    if j >= first.len() {
                        assert(all[j] == second[j - first.len()]);
                    }
                }
            },
            None => {
                assert forall|j: int| 0 <= j < all.len() implies answers(
                    probe,
                    #[trigger] all[j],
                    false,
                ) by {
                    if j >= first.len() {
                        assert(all[j] == second[j - first.len()]);
                    }
                }
            },
        }
    }
}

/// Looks for the library in a runtime directory that may be unknown.
fn find_in_optional_directory<F: Fn(&str) -> bool>(
    layout: &Layout,
    jre_path: Option<&str>,
    probe: &F,
) -> (found: Option<String>)
    requires
        forall|p: &str| call_requires(*probe, (p,)),
    ensures
        chosen(probe, optional_candidates(*layout, text_of_str(jre_path)), text_of(found)),
{
    match jre_path {
        Some(path) => find_in_runtime_directory(layout, path, probe),
        None => None,
    }
}

/// Whether `result` is what the search over `order` comes to with the probe's
/// answers: the chosen path, or `NotFound` where every place was refused.
pub open spec fn located<F: Fn(&str) -> bool>(
    probe: &F,
    order: Seq<Seq<char>>,
    result: Result<String, LaunchError>,
) -> bool {
    match result {
        Ok(path) => chosen(probe, order, Some(path@)),
        Err(error) => error == LaunchError::NotFound && chosen(probe, order, None),
    }
}

/// The search outside the application's own directory: below `java_root`,
/// then below `java_home`.
pub fn find_installed_runtime<F: Fn(&str) -> bool>(
    layout: &Layout,
    java_root: Option<&str>,
    java_home: Option<&str>,
    probe: &F,
) -> (found: Option<String>)
    requires
        forall|p: &str| call_requires(*probe, (p,)),
    ensures
        chosen(
            probe,
            optional_candidates(*layout, text_of_str(java_root)) + optional_candidates(
                *layout,
                text_of_str(java_home),
            ),
            text_of(found),
        ),
{
    let ghost first = optional_candidates(*layout, text_of_str(java_root));
    let ghost second = optional_candidates(*layout, text_of_str(java_home));
    let by_path = find_in_optional_directory(layout, java_root, probe);
    if by_path.is_some() {
        proof {
            lemma_chosen_in_sequence(probe, first, second, text_of(by_path));
        }
        return by_path;
    }
    let by_home = find_in_optional_directory(layout, java_home, probe);
    proof {
        lemma_chosen_in_sequence(probe, first, second, text_of(by_home));
    }
    by_home
}

/// The whole search, for a `java` program whose runtime directory is known:
/// the first place in `search_order` that the probe confirms, and `NotFound`
/// exactly where it confirms none.
pub fn find_runtime_library_from<F: Fn(&str) -> bool>(
    layout: &Layout,
    app_root: &str,
    java_root: Option<&str>,
    java_home: Option<&str>,
    probe: &F,
) -> (result: Result<String, LaunchError>)
    requires
        forall|p: &str| call_requires(*probe, (p,)),
    ensures
        located(
            probe,
            search_order(*layout, app_root@, text_of_str(java_root), text_of_str(java_home)),
            result,
        ),
{
    let ghost bundled = library_candidates(
        *layout,
        joined_by(layout.separator, app_root@, "jre"@),
    );
    let ghost installed = optional_candidates(*layout, text_of_str(java_root))
        + optional_candidates(*layout, text_of_str(java_home));
    proof {
        assert(search_order(*layout, app_root@, text_of_str(java_root), text_of_str(java_home))
            =~= bundled + installed);
    }
    let jre = join_path_by(layout.separator, app_root, "jre");
    let own = find_in_runtime_directory(layout, jre.as_str(), probe);
    if let Some(path) = own {
        proof {
            lemma_chosen_in_sequence(probe, bundled, installed, Some(path@));
        }
        return Ok(path);
    }
    let other = find_installed_runtime(layout, java_root, java_home, probe);
    proof {
        lemma_chosen_in_sequence(probe, bundled, installed, text_of(other));
    }
    match other {
        Some(path) => Ok(path),
        None => Err(LaunchError::NotFound),
    }
}

/// The runtime directory of the `java` program that was found on the search
/// path, where one was found.
pub open spec fn java_root_of(java: Option<Seq<char>>) -> Option<Seq<char>> {
    match java {
        Some(path) => runtime_root_of(path),
        None => None,
    }
}

/// The whole search, for what the lookup of `java` on the search path has
/// come to: the first place in `search_order` that the probe confirms, and
/// `NotFound` exactly where it confirms none. The places below the runtime
/// directory of `java` stand after the application's own and before those of
/// `java_home`.
pub fn find_runtime_library_for<F: Fn(&str) -> bool>(
    layout: &Layout,
    app_root: &str,
    java: Option<&str>,
    java_home: Option<&str>,
    probe: &F,
) -> (result: Result<String, LaunchError>)
    requires
        forall|p: &str| call_requires(*probe, (p,)),
    ensures
        located(
            probe,
            search_order(
                *layout,
                app_root@,
                java_root_of(text_of_str(java)),
                text_of_str(java_home),
            ),
            result,
        ),
{
    let java_root = match java {
        Some(path) => runtime_root(path),
        None => None,
    };
    match &java_root {
        Some(root) => find_runtime_library_from(
            layout,
            app_root,
            Some(root.as_str()),
            java_home,
            probe,
        ),
        None => find_runtime_library_from(layout, app_root, None, java_home, probe),
    }
}

/// The whole search. The `java` program is looked up on the search path, and
/// `find_runtime_library_for` does the rest: whatever the lookup comes to,
/// the result is the first place in the order of the search that the probe
/// confirms, and `NotFound` exactly where it confirms none.
pub fn find_runtime_library<F: Fn(&str) -> bool>(
    layout: &Layout,
    app_root: &str,
    java_home: Option<&str>,
    probe: &F,
) -> (result: Result<String, LaunchError>)
    requires
        forall|p: &str| call_requires(*probe, (p,)),
    ensures
        exists|java: Option<Seq<char>>|
            located(
                probe,
                #[trigger] search_order(
                    *layout,
                    app_root@,
                    java_root_of(java),
                    text_of_str(java_home),
                ),
                result,
            ),
{
    let java = which_java();
    let result = match &java {
        Some(path) => find_runtime_library_for(
            layout,
            app_root,
            Some(path.as_str()),
            java_home,
            probe,
        ),
        None => find_runtime_library_for(layout, app_root, None, java_home, probe),
    };
    assert(located(
        probe,
        search_order(*layout, app_root@, java_root_of(text_of(java)), text_of_str(java_home)),
        result,
    ));
    result
}

/// The first of `order` that is on disk, where `on_disk` says which paths are
/// files.
pub open spec fn first_on_disk(order: Seq<Seq<char>>, on_disk: spec_fn(Seq<char>) -> bool) -> Option<
    Seq<char>,
>
    decreases order.len(),
{
    if order.len() == 0 {
        None
    } else if on_disk(order[0]) {
        Some(order[0])
    } else {
        first_on_disk(order.drop_first(), on_disk)
    }
}

/// With a probe that tells the truth about the disk, the search returns the
/// first place in its order that holds a file, and finds nothing exactly
/// where none of the places does.
pub proof fn lemma_search_finds_first_on_disk<F: Fn(&str) -> bool>(
    probe: &F,
    on_disk: spec_fn(Seq<char>) -> bool,
    order: Seq<Seq<char>>,
    found: Option<Seq<char>>,
)
    requires
        forall|p: &str, answer: bool| #[trigger]
            call_ensures(*probe, (p,), answer) ==> answer == on_disk(p@),
        chosen(probe, order, found),
    ensures
        found == first_on_disk(order, on_disk),
        found is None <==> forall|i: int| 0 <= i < order.len() ==> !on_disk(#[trigger] order[i]),
    decreases order.len(),
{
    if order.len() > 0 {
        let rest = order.drop_first();
        match found {
            Some(path) => {
                let i = choose|i: int|
                    0 <= i < order.len() && #[trigger] order[i] == path && answers(
                        probe,
                        order[i],
                        true,
                    ) && forall|j: int| 0 <= j < i ==> answers(probe, #[trigger] order[j], false);
                assert(on_disk(order[i]));
                if i > 0 {
                    assert(answers(probe, order[0], false));
                    assert(rest[i - 1] == order[i]);
                    assert forall|j: int| 0 <= j < i - 1 implies answers(
                        probe,
                        #[trigger] rest[j],
                        false,
                    ) by {
                        assert(rest[j] == order[j + 1]);
                    }
                    assert(chosen(probe, rest, found));
                    lemma_search_finds_first_on_disk(probe, on_disk, rest, found);
                }
            },
            None => {
                assert(answers(probe, order[0], false));
                assert forall|j: int| 0 <= j < rest.len() implies answers(
                    probe,
                    #[trigger] rest[j],
                    false,
                ) by {
                    assert(rest[j] == order[j + 1]);
                }
                lemma_search_finds_first_on_disk(probe, on_disk, rest, found);
                assert forall|i: int| 0 <= i < order.len() implies !on_disk(
                    #[trigger] order[i],
                ) by {
                    if i > 0 {
                        assert(rest[i - 1] == order[i]);
                    }
                }
            },
        }
    }
}

/// The first file on disk among two lists in a row is the first among the
/// first list, and where that list has none, the first among the second.
pub proof fn lemma_first_on_disk_in_sequence(
    first: Seq<Seq<char>>,
    second: Seq<Seq<char>>,
    on_disk: spec_fn(Seq<char>) -> bool,
)
    ensures
        first_on_disk(first + second, on_disk) == if first_on_disk(first, on_disk) is Some {
            first_on_disk(first, on_disk)
        } else {
            first_on_disk(second, on_disk)
        },
    decreases first.len(),
{
    if first.len() == 0 {
        assert(first + second =~= second);
    } else {
        assert((first + second)[0] == first[0]);
        assert((first + second).drop_first() =~= first.drop_first() + second);
        lemma_first_on_disk_in_sequence(first.drop_first(), second, on_disk);
    }
}

/// What the search comes to whatever `java` program the search path holds.
/// With a probe that tells the truth about the disk, a library in the
/// application's own runtime directory is always the one that is returned;
/// the search fails only where neither that directory nor the one of `java`
/// nor the one that the environment names holds a library, so that a missing
/// `java` or an unset environment alone never makes it fail; and a path that
/// is returned is a file on disk.
pub proof fn lemma_search_whatever_java<F: Fn(&str) -> bool>(
    probe: &F,
    on_disk: spec_fn(Seq<char>) -> bool,
    layout: Layout,
    app_root: Seq<char>,
    java_root: Option<Seq<char>>,
    java_home: Option<Seq<char>>,
    result: Result<String, LaunchError>,
)
    requires
        forall|p: &str, answer: bool| #[trigger]
            call_ensures(*probe, (p,), answer) ==> answer == on_disk(p@),
        located(probe, search_order(layout, app_root, java_root, java_home), result),
    ensures
        ({
            let own = library_candidates(layout, joined_by(layout.separator, app_root, "jre"@));
            let by_path = optional_candidates(layout, java_root);
            let by_home = optional_candidates(layout, java_home);
            &&& first_on_disk(own, on_disk) matches Some(path) ==> result is Ok && result->Ok_0@
                == path
            &&& result is Err <==> first_on_disk(own, on_disk) is None && first_on_disk(
                by_path,
                on_disk,
            ) is None && first_on_disk(by_home, on_disk) is None
            &&& result is Err ==> result->Err_0 == LaunchError::NotFound
            &&& result matches Ok(path) ==> on_disk(path@)
        }),
{
    let own = library_candidates(layout, joined_by(layout.separator, app_root, "jre"@));
    let by_path = optional_candidates(layout, java_root);
    let by_home = optional_candidates(layout, java_home);
    let order = search_order(layout, app_root, java_root, java_home);
    assert(order =~= own + (by_path + by_home));
    lemma_first_on_disk_in_sequence(own, by_path + by_home, on_disk);
    lemma_first_on_disk_in_sequence(by_path, by_home, on_disk);
    match result {
        Ok(path) => {
            lemma_search_finds_first_on_disk(probe, on_disk, order, Some(path@));
            let i = choose|i: int|
                0 <= i < order.len() && #[trigger] order[i] == path@ && answers(
                    probe,
                    order[i],
                    true,
                ) && forall|j: int| 0 <= j < i ==> answers(probe, #[trigger] order[j], false);
            assert(answers(probe, order[i], true));
        },
        Err(_) => {
            lemma_search_finds_first_on_disk(probe, on_disk, order, None);
        },
    }
}

} // verus!
