//! Paths as text: joining, and the removal of the Windows extended-length
//! mark. Numbers in decimal.

use vstd::prelude::*;
use vstd::string::*;

verus! {

/// `String::push` of the standard library: appends `c` to `s`.
pub assume_specification[ std::string::String::push ](s: &mut std::string::String, c: char)
    ensures
        final(s)@ == old(s)@.push(c),
;

/// Whether `c` separates the parts of a path where `sep` is the separator.
/// Where paths are written with `\\`, `/` separates as well.
pub open spec fn separates(sep: char, c: char) -> bool {
    c == sep || (sep == '\\' && c == '/')
}

/// Whether `path` starts with a separator.
pub open spec fn is_rooted(sep: char, path: Seq<char>) -> bool {
    path.len() > 0 && separates(sep, path[0])
}

/// Whether a separator has to stand between `base` and what is appended to it.
pub open spec fn wants_separator(sep: char, base: Seq<char>) -> bool {
    base.len() > 0 && !separates(sep, base.last())
}

/// `base` extended by `rel`, where `sep` separates the parts of a path: a
/// `rel` that starts with a separator replaces `base`, any other one is
/// appended, after a `sep` where `base` is not empty and does not end in a
/// separator. This is a rule on the text of the two paths and on nothing
/// else: a drive letter or another prefix in front of a path is text like
/// the rest.
pub open spec fn joined_by(sep: char, base: Seq<char>, rel: Seq<char>) -> Seq<char> {
    if is_rooted(sep, rel) {
        rel
    } else if wants_separator(sep, base) {
        base.push(sep) + rel
    } else {
        base + rel
    }
}

/// `base` extended by `rel`, with `/` between the parts of a path.
pub open spec fn joined(base: Seq<char>, rel: Seq<char>) -> Seq<char> {
    joined_by('/', base, rel)
}

fn is_separator(sep: char, c: char) -> (yes: bool)
    ensures
        yes == separates(sep, c),
{
    c == sep || (sep == '\\' && c == '/')
}

/// Joins two paths the way `joined_by` describes.
pub fn join_path_by(sep: char, base: &str, rel: &str) -> (out: String)
    ensures
        out@ == joined_by(sep, base@, rel@),
{
    let rel_len = rel.unicode_len();
    if rel_len > 0 && is_separator(sep, rel.get_char(0)) {
        return String::from_str(rel);
    }
    let base_len = base.unicode_len();
    let mut out = String::from_str(base);
    if base_len > 0 && !is_separator(sep, base.get_char(base_len - 1)) {
        out.push(sep);
    }
    out.append(rel);
    out
}

/// Joins two paths the way `joined` describes.
pub fn join_path(base: &str, rel: &str) -> (out: String)
    ensures
        out@ == joined(base@, rel@),
{
    join_path_by('/', base, rel)
}

/// The mark `\\?\` with which Windows lets a path exceed the usual length.
pub open spec fn extended_length_mark() -> Seq<char> {
    seq!['\\', '\\', '?', '\\']
}

/// Whether `path` begins with the extended-length mark.
pub open spec fn has_extended_length_mark(path: Seq<char>) -> bool {
    path.len() >= 4 && path.subrange(0, 4) == extended_length_mark()
}

/// `path` without the extended-length mark, where it begins with one.
pub open spec fn without_extended_length_mark(path: Seq<char>) -> Seq<char> {
    if has_extended_length_mark(path) {
        path.skip(4)
    } else {
        path
    }
}

/// Paths that can be shown to a program that does not know the
/// extended-length mark.
pub trait PathExt {
    /// The path as text.
    spec fn path_text(&self) -> Seq<char>;

    /// The path as text, without the extended-length mark.
    fn to_string_without_extend_length_mark(&self) -> (text: String)
        ensures
            text@ == without_extended_length_mark(self.path_text()),
    ;
}

impl PathExt for str {
    open spec fn path_text(&self) -> Seq<char> {
        self@
    }

    fn to_string_without_extend_length_mark(&self) -> (text: String) {
        let len = self.unicode_len();
        if len >= 4 && self.get_char(0) == '\\' && self.get_char(1) == '\\' && self.get_char(2)
            == '?' && self.get_char(3) == '\\' {
            assert(self@.subrange(0, 4) =~= extended_length_mark());
            String::from_str(self.substring_char(4, len))
        } else {
            String::from_str(self)
        }
    }
}

/// The character of the digit `d`.
pub open spec fn digit(d: nat) -> char {
    (48 + d) as char
}

/// `n` in decimal, without leading zeros.
pub open spec fn decimal_digits(n: nat) -> Seq<char>
    decreases n,
{
    if n < 10 {
        seq![digit(n)]
    } else {
        decimal_digits(n / 10).push(digit(n % 10))
    }
}

fn digit_char(d: usize) -> (c: char)
    requires
        d < 10,
    ensures
        c == digit(d as nat),
{
    match d {
        0 => '0',
        1 => '1',
        2 => '2',
        3 => '3',
        4 => '4',
        5 => '5',
        6 => '6',
        7 => '7',
        8 => '8',
        _ => '9',
    }
}

/// Writes `n` in decimal.
pub fn decimal(n: usize) -> (text: String)
    ensures
        text@ == decimal_digits(n as nat),
    decreases n,
{
    if n < 10 {
        let mut text = String::new();
        text.push(digit_char(n));
        text
    } else {
        let mut text = decimal(n / 10);
        text.push(digit_char(n % 10));
        text
    }
}

} // verus!
