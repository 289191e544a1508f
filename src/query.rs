use vstd::prelude::*;

use crate::entry::SquashFSEntry;
use crate::text::{contains, ends_with, has_infix, has_prefix, has_suffix, lower_of, lowercase, starts_with};

verus! {

/// The path tests that the resolvers run over the entries of an image.
#[derive(Debug, Clone, Copy, PartialEq, Eq)]
pub enum Query {
    /// The path is exactly `/.DirIcon`; no filter applies.
    DirIcon,
    /// A PNG file under `/usr/share/icons/`.
    SharedPng,
    /// An SVG file under `/usr/share/icons/`.
    SharedSvg,
    /// A PNG file anywhere.
    AnyPng,
    /// An SVG file anywhere.
    AnySvg,
    /// A desktop entry.
    Desktop,
    /// An AppStream document: `appdata.xml`, `metadata.xml` or `metainfo.xml`.
    Appstream,
}

/// A lower-cased path passes the filter when there is none, or when the
/// lower-cased filter occurs in it: the filter ignores case.
pub open spec fn passes_filter(lower: Seq<char>, filter: Option<String>) -> bool {
    match filter {
        None => true,
        Some(f) => has_infix(lower, lower_of(f@)),
    }
}

/// Whether query `q` accepts a path, given as stored and lower-cased.
pub open spec fn query_accepts(q: Query, path: Seq<char>, lower: Seq<char>, filter: Option<String>) -> bool {
    match q {
        Query::DirIcon => path == "/.DirIcon"@,
        Query::SharedPng => has_prefix(lower, "/usr/share/icons/"@) && passes_filter(lower, filter)
            && has_suffix(lower, ".png"@),
        Query::SharedSvg => has_prefix(lower, "/usr/share/icons/"@) && passes_filter(lower, filter)
            && has_suffix(lower, ".svg"@),
        Query::AnyPng => passes_filter(lower, filter) && has_suffix(lower, ".png"@),
        Query::AnySvg => passes_filter(lower, filter) && has_suffix(lower, ".svg"@),
        Query::Desktop => passes_filter(lower, filter) && has_suffix(lower, ".desktop"@),
        Query::Appstream => passes_filter(lower, filter) && (has_suffix(lower, "appdata.xml"@)
            || has_suffix(lower, "metadata.xml"@) || has_suffix(lower, "metainfo.xml"@)),
    }
}

/// Whether query `q` accepts entry `e` under `filter`.
pub open spec fn entry_accepted(q: Query, e: SquashFSEntry, filter: Option<String>) -> bool {
    query_accepts(q, e.path@, lower_of(e.path@), filter)
}

/// Whether `s` and `t` are the same string.
pub fn same_text(s: &str, t: &str) -> (r: bool)
    ensures
        r == (s@ == t@),
{
    if s.unicode_len() != t.unicode_len() {
        return false;
    }
    assert(s@.subrange(0, t@.len() as int) =~= s@);
    starts_with(s, t)
}

/// Whether a path that has already been lower-cased passes the filter.
pub fn passes(lower: &str, filter: &Option<String>) -> (r: bool)
    ensures
        r == passes_filter(lower@, *filter),
{
    match filter {
        None => true,
        Some(f) => {
            let f_lower = lowercase(f.as_str());
            contains(lower, f_lower.as_str())
        },
    }
}

/// Whether query `q` accepts a path, given as stored and lower-cased.
pub fn path_accepted(q: Query, path: &str, lower: &str, filter: &Option<String>) -> (r: bool)
    ensures
        r == query_accepts(q, path@, lower@, *filter),
{
    match q {
        Query::DirIcon => same_text(path, "/.DirIcon"),
        Query::SharedPng => starts_with(lower, "/usr/share/icons/") && passes(lower, filter)
            && ends_with(lower, ".png"),
        Query::SharedSvg => starts_with(lower, "/usr/share/icons/") && passes(lower, filter)
            && ends_with(lower, ".svg"),
        Query::AnyPng => passes(lower, filter) && ends_with(lower, ".png"),
        Query::AnySvg => passes(lower, filter) && ends_with(lower, ".svg"),
        Query::Desktop => passes(lower, filter) && ends_with(lower, ".desktop"),
        Query::Appstream => passes(lower, filter) && (ends_with(lower, "appdata.xml")
            || ends_with(lower, "metadata.xml") || ends_with(lower, "metainfo.xml")),
    }
}

/// Whether query `q` accepts entry `e` under `filter`.
pub fn entry_matches(q: Query, filter: &Option<String>, e: &SquashFSEntry) -> (r: bool)
    ensures
        r == entry_accepted(q, *e, *filter),
{
    let lower = lowercase(e.path.as_str());
    path_accepted(q, e.path.as_str(), lower.as_str(), filter)
}

} // verus!
