//! What the application archive says of the application.

use vstd::prelude::*;
use vstd::std_specs::iter::IteratorSpec;
use vstd::string::*;
use crate::utils::errors::LaunchError;

verus! {

/// What the launcher needs to know of the application.
#[derive(Debug, Clone, Copy, PartialEq, Eq, Structural)]
pub struct Metadata {
    /// Whether the application is the premium variant.
    pub is_premium: bool,
}

/// The value that `entries` give to `key`: that of the last entry with this
/// key, as in a map that is filled entry by entry.
pub open spec fn property(entries: Seq<(Seq<char>, Seq<char>)>, key: Seq<char>) -> Option<
    Seq<char>,
>
    decreases entries.len(),
{
    if entries.len() == 0 {
        None
    } else if entries.last().0 == key {
        Some(entries.last().1)
    } else {
        property(entries.drop_last(), key)
    }
}

/// The metadata that a manifest with these entries stands for: the
/// application is the premium variant exactly if `Clash-Premium` is `true`,
/// and a manifest without that property is refused.
pub open spec fn metadata_of(entries: Seq<(Seq<char>, Seq<char>)>) -> Result<
    Metadata,
    LaunchError,
> {
    match property(entries, "Clash-Premium"@) {
        Some(text) => Ok(Metadata { is_premium: text == "true"@ }),
        None => Err(LaunchError::PropertyMissing),
    }
}

/// Looks `key` up in `entries`.
pub fn find_property<'a>(entries: &'a Vec<(String, String)>, key: &str) -> (value: Option<
    &'a String,
>)
    ensures
        match value {
            Some(text) => property(entries.deep_view(), key@) == Some(text@),
            None => property(entries.deep_view(), key@) is None,
        },
{
    let wanted = String::from_str(key);
    let mut i: usize = entries.len();
    proof {
        assert(entries.deep_view().take(i as int) =~= entries.deep_view());
    }
    while i > 0
        invariant
            i <= entries.len(),
            wanted@ == key@,
            property(entries.deep_view(), key@) == property(
                entries.deep_view().take(i as int),
                key@,
            ),
        decreases i,
    {
        proof {
            assert(entries.deep_view().take(i as int).drop_last() =~= entries.deep_view().take(
                i - 1,
            ));
        }
        if entries[i - 1].0 == wanted {
            return Some(&entries[i - 1].1);
        }
        i = i - 1;
    }
    None
}

impl Metadata {
    /// The metadata that a manifest with these entries stands for.
    pub fn new_from_hash_map(entries: &Vec<(String, String)>) -> (result: Result<
        Metadata,
        LaunchError,
    >)
        ensures
            result == metadata_of(entries.deep_view()),
    {
        match find_property(entries, "Clash-Premium") {
            Some(text) => {
                let yes = String::from_str("true");
                Ok(Metadata { is_premium: *text == yes })
            },
            None => Err(LaunchError::PropertyMissing),
        }
    }
}

/// Whether `c` is white space: a character with the Unicode property
/// `White_Space`.
pub open spec fn is_space(c: char) -> bool {
    let v = c as u32;
    (0x09 <= v <= 0x0D) || v == 0x20 || v == 0x85 || v == 0xA0 || v == 0x1680 || (0x2000 <= v
        <= 0x200A) || v == 0x2028 || v == 0x2029 || v == 0x202F || v == 0x205F || v == 0x3000
}

/// `text` without the white space it begins with.
pub open spec fn trimmed_start(text: Seq<char>) -> Seq<char>
    decreases text.len(),
{
    if text.len() > 0 && is_space(text[0]) {
        trimmed_start(text.drop_first())
    } else {
        text
    }
}

/// `text` without the white space it ends with.
pub open spec fn trimmed_end(text: Seq<char>) -> Seq<char>
    decreases text.len(),
{
    if text.len() > 0 && is_space(text.last()) {
        trimmed_end(text.drop_last())
    } else {
        text
    }
}

/// `text` without the white space around it.
pub open spec fn trimmed(text: Seq<char>) -> Seq<char> {
    trimmed_end(trimmed_start(text))
}

/// Whether `at` is the place of the first colon in `line`.
pub open spec fn is_first_colon(line: Seq<char>, at: int) -> bool {
    &&& 0 <= at < line.len()
    &&& line[at] == ':'
    &&& forall|j: int| 0 <= j < at ==> line[j] != ':'
}

/// The entry that a line of a manifest stands for: the name before the first
/// colon and the value after it, each without the white space around it. A
/// line without a colon stands for none.
pub open spec fn entry_of(line: Seq<char>) -> Option<(Seq<char>, Seq<char>)> {
    if exists|at: int| is_first_colon(line, at) {
        let at = choose|at: int| is_first_colon(line, at);
        Some((trimmed(line.take(at)), trimmed(line.skip(at + 1))))
    } else {
        None
    }
}

/// The lines of `text`: what stands before, between and after its line feeds.
pub open spec fn lines_of(text: Seq<char>) -> Seq<Seq<char>>
    decreases text.len(),
{
    if text.len() == 0 {
        seq![Seq::empty()]
    } else {
        let before = lines_of(text.drop_last());
        if text.last() == '\n' {
            before.push(Seq::empty())
        } else {
            before.drop_last().push(before.last().push(text.last()))
        }
    }
}

/// The entries of `lines`, in order.
pub open spec fn entries_of(lines: Seq<Seq<char>>) -> Seq<(Seq<char>, Seq<char>)>
    decreases lines.len(),
{
    if lines.len() == 0 {
        Seq::empty()
    } else {
        let before = entries_of(lines.drop_last());
        match entry_of(lines.last()) {
            Some(entry) => before.push(entry),
            None => before,
        }
    }
}

/// The entries of a manifest.
pub open spec fn manifest_entries(text: Seq<char>) -> Seq<(Seq<char>, Seq<char>)> {
    entries_of(lines_of(text))
}

fn is_white_space(c: char) -> (yes: bool)
    ensures
        yes == is_space(c),
{
    let v: u32 = c as u32;
    (0x09 <= v && v <= 0x0D) || v == 0x20 || v == 0x85 || v == 0xA0 || v == 0x1680 || (0x2000 <= v
        && v <= 0x200A) || v == 0x2028 || v == 0x2029 || v == 0x202F || v == 0x205F || v
        == 0x3000
}

/// The part of `chars` from `from` up to `to`, without the white space around
/// it.
fn trimmed_part(chars: &Vec<char>, from: usize, to: usize) -> (text: String)
    requires
        from <= to <= chars.len(),
    ensures
        text@ == trimmed(chars@.subrange(from as int, to as int)),
{
    let mut start: usize = from;
    while start < to && is_white_space(chars[start])
        invariant
            from <= start <= to <= chars.len(),
            trimmed_start(chars@.subrange(from as int, to as int)) == trimmed_start(
                chars@.subrange(start as int, to as int),
            ),
        decreases to - start,
    {
        proof {
            assert(chars@.subrange(start as int, to as int).drop_first() =~= chars@.subrange(
                start + 1,
                to as int,
            ));
        }
        start = start + 1;
    }
    let mut end: usize = to;
    while end > start && is_white_space(chars[end - 1])
        invariant
            start <= end <= to <= chars.len(),
            trimmed_end(chars@.subrange(start as int, to as int)) == trimmed_end(
                chars@.subrange(start as int, end as int),
            ),
        decreases end - start,
    {
        proof {
            assert(chars@.subrange(start as int, end as int).drop_last() =~= chars@.subrange(
                start as int,
                end - 1,
            ));
        }
        end = end - 1;
    }
    let mut text = String::new();
    let mut i: usize = start;
    while i < end
        invariant
            start <= i <= end <= chars.len(),
            text@ == chars@.subrange(start as int, i as int),
        decreases end - i,
    {
        text.push(chars[i]);
        i = i + 1;
    }
    text
}

/// The entry that `line` stands for.
fn parse_line(line: &Vec<char>) -> (entry: Option<(String, String)>)
    ensures
        match entry {
            Some(pair) => entry_of(line@) == Some((pair.0@, pair.1@)),
            None => entry_of(line@) is None,
        },
{
    let mut at: usize = 0;
    while at < line.len() && line[at] != ':'
        invariant
            at <= line.len(),
            forall|j: int| 0 <= j < at ==> line@[j] != ':',
        decreases line.len() - at,
    {
        at = at + 1;
    }
    if at == line.len() {
        return None;
    }
    proof {
        assert(is_first_colon(line@, at as int));
    }
    let name = trimmed_part(line, 0, at);
    let value = trimmed_part(line, at + 1, line.len());
    Some((name, value))
}

/// Reads the entries of a manifest: one for each line that holds a colon.
pub fn parse_manifest(text: &str) -> (entries: Vec<(String, String)>)
    ensures
        entries.deep_view() == manifest_entries(text@),
{
    let mut entries: Vec<(String, String)> = Vec::new();
    let mut line: Vec<char> = Vec::new();
    let ghost mut done: Seq<Seq<char>> = Seq::empty();
    let chars = text.chars();
    for c in it: chars
        invariant
            it.seq() == text@,
            lines_of(text@.take(it.index() as int)) == done.push(line@),
            entries.deep_view() == entries_of(done),
    {
        let ghost seen = it.index() as int;
        proof {
            assert(text@.take(seen + 1).drop_last() =~= text@.take(seen));
            assert(done.push(line@).drop_last() =~= done);
        }
        if c == '\n' {
            match parse_line(&line) {
                Some(pair) => {
                    entries.push(pair);
                },
                None => {},
            }
            proof {
                done = done.push(line@);
            }
            line = Vec::new();
        } else {
            line.push(c);
        }
    }
    proof {
        assert(text@.take(text@.len() as int) =~= text@);
        assert(done.push(line@).drop_last() =~= done);
    }
    match parse_line(&line) {
        Some(pair) => {
            entries.push(pair);
        },
        None => {},
    }
    entries
}

/// The metadata that the manifest `text` stands for.
pub fn metadata_from_manifest(text: &str) -> (result: Result<Metadata, LaunchError>)
    ensures
        result == metadata_of(manifest_entries(text@)),
{
    let entries = parse_manifest(text);
    Metadata::new_from_hash_map(&entries)
}

/// Errors of the `zip` crate.
#[verifier::external_type_specification]
#[verifier::external_body]
pub struct ExZipError(zip::result::ZipError);

/// The text that the `zip` crate reads from the entry `name` of the archive
/// whose bytes are `archive`, trying the empty password where the entry asks
/// for one; `None` where the bytes are no archive it can read, the archive
/// has no such entry, the entry is locked, or the entry is not UTF-8 text.
pub uninterp spec fn archive_entry_text(archive: Seq<u8>, name: Seq<char>) -> Option<Seq<char>>;

/// Reads one entry of an archive that is held in memory, with
/// `zip::ZipArchive::new`, `zip::ZipArchive::by_name_decrypt` for the empty
/// password, and `std::io::Read::read_to_string` on the entry. The entry
/// borrows the archive, so the three calls stand together. What comes back
/// depends on the bytes and the name alone: the text of the entry, the error
/// that one of the calls has returned, or `Err(None)` for an entry that the
/// empty password does not open.
#[verifier::external_body]
pub(crate) fn read_archive_entry(archive: &[u8], name: &str) -> (text: Result<
    String,
    Option<zip::result::ZipError>,
>)
    ensures
        match text {
            Ok(read) => archive_entry_text(archive@, name@) == Some(read@),
            Err(_) => archive_entry_text(archive@, name@) is None,
        },
{
    let mut zip = zip::ZipArchive::new(std::io::Cursor::new(archive)).map_err(Some)?;
    let mut entry = match zip.by_name_decrypt(name, &[]).map_err(Some)? {
        Ok(entry) => entry,
        Err(_) => return Err(None),
    };
    let mut text = String::new();
    std::io::Read::read_to_string(&mut entry, &mut text).map_err(|e| Some(e.into()))?;
    Ok(text)
}

/// The message of an error of the `zip` crate, as its `Display` writes it.
#[verifier::external_body]
pub(crate) fn archive_error_text(error: &zip::result::ZipError) -> (text: String) {
    format!("{}", error)
}

/// Name of the manifest in an application archive.
pub fn manifest_entry_name() -> (name: &'static str)
    ensures
        name@ == "META-INF/MANIFEST.MF"@,
{
    "META-INF/MANIFEST.MF"
}

/// The metadata of the application whose archive has the bytes `classpath`.
/// Where the manifest can be read from the archive it decides, as
/// `metadata_of` says; an archive without a readable manifest is refused with
/// the reader's message.
pub fn resolve_app_metadata(classpath: &[u8]) -> (result: Result<Metadata, LaunchError>)
    ensures
        match archive_entry_text(classpath@, "META-INF/MANIFEST.MF"@) {
            Some(manifest) => result == metadata_of(manifest_entries(manifest)),
            None => result is Err && result->Err_0 is Archive,
        },
{
    match read_archive_entry(classpath, manifest_entry_name()) {
        Ok(manifest) => metadata_from_manifest(manifest.as_str()),
        Err(Some(error)) => Err(LaunchError::Archive(archive_error_text(&error))),
        Err(None) => Err(LaunchError::Archive(String::from_str("manifest is locked by a password"))),
    }
}

} // verus!
