//! Text: searching it and writing paths out.

use std::path::PathBuf;
use vstd::prelude::*;

verus! {

broadcast use vstd::string::group_string_axioms;

/// Whether `needle` stands in `text` at the place `at`.
pub open spec fn occurs_at(text: Seq<char>, needle: Seq<char>, at: int) -> bool {
    0 <= at && at + needle.len() <= text.len() && text.subrange(at, at + needle.len()) == needle
}

/// Whether `needle` stands somewhere in `text`.
pub open spec fn occurs_in(text: Seq<char>, needle: Seq<char>) -> bool {
    exists|at: int| occurs_at(text, needle, at)
}

/// The characters of a text.
pub fn chars_of(text: &str) -> (chars: Vec<char>)
    ensures
        chars@ == text@,
{
    let mut chars: Vec<char> = Vec::new();
    for c in it: text.chars()
        invariant
            it.seq() == text@,
            chars@ == it.seq().take(it.index()),
    {
        chars.push(c);
    }
    chars
}

/// Whether `needle` stands in `text` at the place `at`.
fn matches_at(text: &Vec<char>, needle: &Vec<char>, at: usize) -> (found: bool)
    requires
        at + needle@.len() <= text@.len(),
    ensures
        found == occurs_at(text@, needle@, at as int),
{
    let size: usize = text.len();
    let mut i: usize = 0;
    while i < needle.len()
        invariant
            i <= needle@.len(),
            at + needle@.len() <= text@.len() == size,
            forall|k: int| 0 <= k < i ==> text@[at + k] == needle@[k],
        decreases needle@.len() - i,
    {
        if text[at + i] != needle[i] {
            assert(text@.subrange(at as int, at + needle@.len())[i as int] != needle@[i as int]);
            return false;
        }
        i += 1;
    }
    assert(text@.subrange(at as int, at + needle@.len()) =~= needle@);
    true
}

/// Whether `needle` stands somewhere in `text`.
pub fn contains(text: &str, needle: &str) -> (found: bool)
    ensures
        found == occurs_in(text@, needle@),
{
    let haystack = chars_of(text);
    let pattern = chars_of(needle);
    if pattern.len() > haystack.len() {
        return false;
    }
    let last: usize = haystack.len() - pattern.len();
    let mut at: usize = 0;
    while at < last
        invariant
            at <= last,
            last + pattern@.len() == haystack@.len(),
            haystack@ == text@,
            pattern@ == needle@,
            forall|k: int| 0 <= k < at ==> !occurs_at(haystack@, pattern@, k),
        decreases last - at,
    {
        if matches_at(&haystack, &pattern, at) {
            assert(occurs_at(text@, needle@, at as int));
            return true;
        }
        at += 1;
    }
    let found = matches_at(&haystack, &pattern, last);
    assert(found == occurs_at(text@, needle@, last as int));
    found
}

/// `std::path::PathBuf`, of which only the text that it is written out as is
/// spoken of here.
#[verifier::external_type_specification]
#[verifier::external_body]
pub struct ExPathBuf(PathBuf);

/// `Clone::clone` of a `PathBuf` gives the same path.
pub assume_specification[ <PathBuf as Clone>::clone ](path: &PathBuf) -> (copy: PathBuf)
    ensures
        copy == *path,
;

/// The text that `std::path::Path::display` writes for a path.
pub uninterp spec fn path_text(path: PathBuf) -> Seq<char>;

/// `std::path::Path::display`, written out: the path as text, which is the
/// path itself where it is valid Unicode.
#[verifier::external_body]
pub(crate) fn path_to_string(path: &PathBuf) -> (text: String)
    ensures
        text@ == path_text(*path),
{
    path.display().to_string()
}

} // verus!
