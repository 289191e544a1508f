use vstd::prelude::*;

use rayon::iter::{IndexedParallelIterator, IntoParallelRefIterator, ParallelIterator};

use crate::entry::{EntryKind, SquashFSEntry};
use crate::error::SquishyError;
use crate::paths::{normalize, normalized};
use crate::text::{after_last, last_of};
use crate::query::{entry_accepted, entry_matches, passes, passes_filter, Query};

verus! {

/// `i` is the first index at which query `q` accepts an entry.
pub open spec fn is_first_accepted(es: Seq<SquashFSEntry>, q: Query, f: Option<String>, i: int) -> bool {
    0 <= i < es.len() && entry_accepted(q, es[i], f) && forall|j: int|
        0 <= j < i ==> !entry_accepted(q, #[trigger] es[j], f)
}

/// Query `q` accepts some entry.
pub open spec fn any_accepted(es: Seq<SquashFSEntry>, q: Query, f: Option<String>) -> bool {
    exists|i: int| 0 <= i < es.len() && entry_accepted(q, #[trigger] es[i], f)
}

/// `i` holds an entry that query `q` accepts and that is at least as large
/// as every other entry it accepts.
pub open spec fn is_largest_accepted(es: Seq<SquashFSEntry>, q: Query, f: Option<String>, i: int) -> bool {
    0 <= i < es.len() && entry_accepted(q, es[i], f) && forall|j: int|
        0 <= j < es.len() && entry_accepted(q, #[trigger] es[j], f) ==> es[j].size <= es[i].size
}

/// The index of the first entry that has path `p`.
pub open spec fn is_first_with_path(es: Seq<SquashFSEntry>, p: Seq<char>, i: int) -> bool {
    0 <= i < es.len() && es[i].path@ == p && forall|j: int| 0 <= j < i ==> (#[trigger] es[j]).path@ != p
}

/// The first entry that has path `p`, if any.
pub open spec fn entry_at_path(es: Seq<SquashFSEntry>, p: Seq<char>) -> Option<SquashFSEntry> {
    if exists|i: int| is_first_with_path(es, p, i) {
        Some(es[choose|i: int| is_first_with_path(es, p, i)])
    } else {
        None
    }
}

/// The path in the image that a link at `link` with stored target `target`
/// names: an absolute target as it is, a relative one from the link's
/// directory; then normalized.
pub open spec fn link_destination(link: Seq<char>, target: Seq<char>) -> Seq<char> {
    if target.len() > 0 && target[0] == '/' {
        normalized(target)
    } else {
        normalized(link.subrange(0, last_of(link, '/') + 1) + target)
    }
}

/// Follows `e` through at most `fuel` links to an entry that is not a link;
/// `None` when a link names no entry or the fuel runs out.
pub open spec fn follow_links(es: Seq<SquashFSEntry>, e: SquashFSEntry, fuel: nat) -> Option<SquashFSEntry>
    decreases fuel,
{
    match e.kind {
        EntryKind::Symlink(t) => if fuel == 0 {
            None
        } else {
            match entry_at_path(es, link_destination(e.path@, t@)) {
                Some(n) => follow_links(es, n, (fuel - 1) as nat),
                None => None,
            }
        },
        _ => Some(e),
    }
}

/// What the finalizer makes of `e` in an image with entries `es`: a chain of
/// links longer than the number of entries must repeat one, and fails.
pub open spec fn finalized(es: Seq<SquashFSEntry>, e: SquashFSEntry) -> Option<SquashFSEntry> {
    follow_links(es, e, es.len())
}

/// `/.DirIcon` wins: when the image holds it, the icon search picks the
/// first entry at that path and nothing else, whatever other icons exist.
pub proof fn lemma_diricon_wins(es: Seq<SquashFSEntry>, f: Option<String>, d: int)
    requires
        0 <= d < es.len(),
        es[d].path@ == "/.DirIcon"@,
    ensures
        forall|i: int| icon_pick(es, f, i) <==> is_first_accepted(es, Query::DirIcon, f, i),
{
    assert(entry_accepted(Query::DirIcon, es[d], f));
}

/// No two entries share a path, as the image reader guarantees.
pub open spec fn paths_unique(es: Seq<SquashFSEntry>) -> bool {
    forall|i: int, j: int|
        0 <= i < es.len() && 0 <= j < es.len() && i != j ==> (#[trigger] es[i]).path@ != (
        #[trigger] es[j]).path@
}

/// In an image whose paths are unique and that holds a concrete `/.DirIcon`,
/// the icon search finds an icon, and whatever it picks is that entry,
/// whatever other icons exist.
pub proof fn lemma_diricon_is_the_icon(es: Seq<SquashFSEntry>, f: Option<String>, d: int)
    requires
        paths_unique(es),
        0 <= d < es.len(),
        es[d].path@ == "/.DirIcon"@,
        !(es[d].kind is Symlink),
    ensures
        icon_found(es, f),
        forall|i: int| #[trigger]
            icon_pick(es, f, i) ==> i == d && finalized(es, es[i]) == Some(es[d]),
{
    lemma_diricon_wins(es, f, d);
    assert(entry_accepted(Query::DirIcon, es[d], f));
    assert forall|i: int| #[trigger] icon_pick(es, f, i) implies i == d && finalized(es, es[i]) == Some(
        es[d],
    ) by {
        assert(is_first_accepted(es, Query::DirIcon, f, i));
        if i != d {
            assert(es[i].path@ != es[d].path@);
        }
    }
}

/// Following a link takes one step to its destination.
pub proof fn lemma_link_step(es: Seq<SquashFSEntry>, e: SquashFSEntry, n: SquashFSEntry, fuel: nat)
    requires
        e.kind matches EntryKind::Symlink(t) && entry_at_path(es, link_destination(e.path@, t@))
            == Some(n),
    ensures
        follow_links(es, e, fuel + 1) == follow_links(es, n, fuel),
{
}

/// A chain of links that reaches a concrete entry within `fuel` steps
/// reaches the same entry with any more fuel.
pub proof fn lemma_more_fuel(es: Seq<SquashFSEntry>, e: SquashFSEntry, fuel: nat, more: nat)
    requires
        fuel <= more,
        follow_links(es, e, fuel) is Some,
    ensures
        follow_links(es, e, more) == follow_links(es, e, fuel),
    decreases fuel,
{
    if let EntryKind::Symlink(t) = e.kind {
        if let Some(n) = entry_at_path(es, link_destination(e.path@, t@)) {
            lemma_more_fuel(es, n, (fuel - 1) as nat, (more - 1) as nat);
        }
    }
}

/// A link whose destination is a concrete entry finalizes to that entry.
pub proof fn lemma_link_to_concrete(es: Seq<SquashFSEntry>, e: SquashFSEntry, c: SquashFSEntry)
    requires
        es.len() > 0,
        e.kind matches EntryKind::Symlink(t) && entry_at_path(es, link_destination(e.path@, t@))
            == Some(c),
        !(c.kind is Symlink),
    ensures
        finalized(es, e) == Some(c),
{
    assert(follow_links(es, c, (es.len() - 1) as nat) == Some(c));
}

/// A link whose destination is no entry of the image finalizes to nothing.
pub proof fn lemma_dangling_link(es: Seq<SquashFSEntry>, e: SquashFSEntry)
    requires
        e.kind matches EntryKind::Symlink(t) && entry_at_path(es, link_destination(e.path@, t@))
            is None,
    ensures
        finalized(es, e) is None,
{
}

/// A finalized entry is never a link.
pub proof fn lemma_finalized_is_concrete(es: Seq<SquashFSEntry>, e: SquashFSEntry, fuel: nat)
    ensures
        follow_links(es, e, fuel) matches Some(c) ==> !(c.kind is Symlink),
    decreases fuel,
{
    if let EntryKind::Symlink(t) = e.kind {
        if fuel > 0 {
            if let Some(n) = entry_at_path(es, link_destination(e.path@, t@)) {
                lemma_finalized_is_concrete(es, n, (fuel - 1) as nat);
            }
        }
    }
}

/// Relies on rayon's `position_first` on a slice: the index of the
/// sequentially first entry that the predicate accepts, or `None`.
#[verifier::external_body]
fn par_position_first(entries: &Vec<SquashFSEntry>, q: Query, filter: &Option<String>) -> (r: Option<usize>)
    ensures
        match r {
            Some(i) => is_first_accepted(entries@, q, *filter, i as int),
            None => !any_accepted(entries@, q, *filter),
        },
{
    entries.par_iter().position_first(|e| entry_matches(q, filter, e))
}

/// Relies on rayon's `filter` and `max_by_key` on a slice: an entry of
/// greatest size among those the predicate accepts, or `None` when it
/// accepts none.
#[verifier::external_body]
fn par_largest(entries: &Vec<SquashFSEntry>, q: Query, filter: &Option<String>) -> (r: Option<usize>)
    ensures
        match r {
            Some(i) => is_largest_accepted(entries@, q, *filter, i as int),
            None => !any_accepted(entries@, q, *filter),
        },
{
    entries.par_iter().enumerate().filter(|(_, e)| entry_matches(q, filter, e)).max_by_key(
        |(_, e)| e.size,
    ).map(|(i, _)| i)
}

/// The index of the first entry that query `q` accepts.
pub open spec fn first_index(es: Seq<SquashFSEntry>, q: Query, f: Option<String>) -> int {
    choose|i: int| is_first_accepted(es, q, f, i)
}

/// The first entry that query `q` accepts, finalized; `None` when there is
/// no such entry or its links lead nowhere.
pub open spec fn first_finalized(es: Seq<SquashFSEntry>, q: Query, f: Option<String>) -> Option<SquashFSEntry> {
    if any_accepted(es, q, f) {
        finalized(es, es[first_index(es, q, f)])
    } else {
        None
    }
}

/// Some stage of the icon search accepts an entry.
pub open spec fn icon_found(es: Seq<SquashFSEntry>, f: Option<String>) -> bool {
    any_accepted(es, Query::DirIcon, f) || any_accepted(es, Query::SharedPng, f) || any_accepted(
        es,
        Query::SharedSvg,
        f,
    ) || any_accepted(es, Query::AnyPng, f) || any_accepted(es, Query::AnySvg, f)
}

/// `i` is an entry that the first stage of the icon search that accepts
/// anything may pick: `/.DirIcon`; the largest PNG under
/// `/usr/share/icons/`; the first SVG there; the largest PNG anywhere; the
/// first SVG anywhere.
pub open spec fn icon_pick(es: Seq<SquashFSEntry>, f: Option<String>, i: int) -> bool {
    if any_accepted(es, Query::DirIcon, f) {
        is_first_accepted(es, Query::DirIcon, f, i)
    } else if any_accepted(es, Query::SharedPng, f) {
        is_largest_accepted(es, Query::SharedPng, f, i)
    } else if any_accepted(es, Query::SharedSvg, f) {
        is_first_accepted(es, Query::SharedSvg, f, i)
    } else if any_accepted(es, Query::AnyPng, f) {
        is_largest_accepted(es, Query::AnyPng, f, i)
    } else {
        is_first_accepted(es, Query::AnySvg, f, i)
    }
}

/// The index of the first entry whose path is `p`.
fn index_of_path(entries: &Vec<SquashFSEntry>, p: &String) -> (r: Option<usize>)
    ensures
        match r {
            Some(i) => is_first_with_path(entries@, p@, i as int),
            None => forall|j: int| 0 <= j < entries@.len() ==> (#[trigger] entries@[j]).path@ != p@,
        },
{
    let mut i: usize = 0;
    while i < entries.len()
        invariant
            i <= entries@.len(),
            forall|j: int| 0 <= j < i ==> (#[trigger] entries@[j]).path@ != p@,
        decreases entries@.len() - i,
    {
        if entries[i].path == *p {
            return Some(i);
        }
        i = i + 1;
    }
    None
}

/// The path that a link at `link` with stored target `target` names.
fn destination_of(link: &str, target: &str) -> (r: String)
    ensures
        r@ == link_destination(link@, target@),
{
    if target.unicode_len() > 0 && target.get_char(0) == '/' {
        return normalize(target);
    }
    let k = after_last(link, '/');
    let mut joined = String::from_str(link.substring_char(0, k));
    joined.append(target);
    normalize(joined.as_str())
}

/// An image opened for searching: its entries, and the filter that narrows
/// every resolver but the one for `/.DirIcon`.
pub struct AppImage {
    pub filter: Option<String>,
    pub entries: Vec<SquashFSEntry>,
}

impl AppImage {
    /// Opens a session over the entries that the image reader found, or
    /// fails when the reader found no image (`None`).
    pub fn new(filter: Option<String>, image: Option<Vec<SquashFSEntry>>) -> (r: Result<
        AppImage,
        SquishyError,
    >)
        ensures
            match image {
                Some(es) => r is Ok && r->Ok_0.entries == es && r->Ok_0.filter == filter,
                None => r is Err && r->Err_0 is InvalidSquashFS && r->Err_0->InvalidSquashFS_0@
                    == "Couldn't find squashfs. Try providing valid offset."@,
            },
    {
        match image {
            Some(entries) => Ok(AppImage { filter, entries }),
            None => Err(
                SquishyError::InvalidSquashFS(
                    String::from_str("Couldn't find squashfs. Try providing valid offset."),
                ),
            ),
        }
    }

    /// The filter that the resolvers apply.
    pub fn filter(&self) -> (r: &Option<String>)
        ensures
            *r == self.filter,
    {
        &self.filter
    }

    /// Whether a lower-cased path passes the filter: there is none, or it
    /// occurs in the path.
    pub fn filter_path(&self, path: &str) -> (r: bool)
        ensures
            r == passes_filter(path@, self.filter),
    {
        passes(path, &self.filter)
    }

    /// Follows `entry` through symbolic links to the concrete entry it names.
    /// `None` when a link names no entry, or the chain is longer than the
    /// image has entries, which only a cycle can make it.
    pub fn finalize(&self, entry: &SquashFSEntry) -> (r: Option<SquashFSEntry>)
        ensures
            r == finalized(self.entries@, *entry),
            r matches Some(c) ==> !(c.kind is Symlink),
    {
        proof {
            lemma_finalized_is_concrete(self.entries@, *entry, self.entries@.len());
        }
        let es = Ghost(self.entries@);
        let n = self.entries.len();
        let mut cur = entry.duplicate();
        let mut left: usize = n;
        loop
            invariant
                es@ == self.entries@,
                n == es@.len(),
                left <= n,
                follow_links(es@, cur, left as nat) == follow_links(es@, *entry, n as nat),
            decreases left,
        {
            let next = match &cur.kind {
                EntryKind::Symlink(t) => {
                    if left == 0 {
                        return None;
                    }
                    let dest = destination_of(cur.path.as_str(), t.as_str());
                    match index_of_path(&self.entries, &dest) {
                        None => {
                            assert(!exists|i: int| is_first_with_path(es@, dest@, i));
                            return None;
                        },
                        Some(i) => {
                            assert forall|k: int| is_first_with_path(es@, dest@, k) implies k
                                == i by {
                                if k < i {
                                    assert(es@[k].path@ != dest@);
                                } else if k > i {
                                    assert(es@[i as int].path@ != dest@);
                                }
                            }
                            assert(entry_at_path(es@, dest@) == Some(es@[i as int]));
                            i
                        },
                    }
                },
                _ => {
                    return Some(cur);
                },
            };
            cur = self.entries[next].duplicate();
            left = left - 1;
        }
    }

    /// The finalized entry at index `i`, or `None` for no index.
    fn finalize_at(&self, i: Option<usize>) -> (r: Option<SquashFSEntry>)
        requires
            i matches Some(k) ==> k < self.entries@.len(),
        ensures
            r == match i {
                Some(k) => finalized(self.entries@, self.entries@[k as int]),
                None => None,
            },
            r matches Some(c) ==> !(c.kind is Symlink),
    {
        match i {
            Some(k) => self.finalize(&self.entries[k]),
            None => None,
        }
    }

    /// The first entry that query `q` accepts, finalized.
    fn first_match(&self, q: Query) -> (r: Option<SquashFSEntry>)
        ensures
            r == first_finalized(self.entries@, q, self.filter),
            r matches Some(c) ==> !(c.kind is Symlink),
    {
        let i = par_position_first(&self.entries, q, &self.filter);
        if let Some(k) = i {
            let ghost es = self.entries@;
            let ghost f = self.filter;
            assert forall|m: int| is_first_accepted(es, q, f, m) implies m == k by {
                if m < k {
                    assert(!entry_accepted(q, es[m], f));
                } else if m > k {
                    assert(!entry_accepted(q, es[k as int], f));
                }
            }
            assert(any_accepted(es, q, f) && first_index(es, q, f) == k) by {
                assert(entry_accepted(q, es[k as int], f));
            }
        }
        self.finalize_at(i)
    }

    /// The index of `/.DirIcon`.
    fn search_diricon(&self) -> (r: Option<usize>)
        ensures
            match r {
                Some(i) => is_first_accepted(self.entries@, Query::DirIcon, self.filter, i as int),
                None => !any_accepted(self.entries@, Query::DirIcon, self.filter),
            },
    {
        par_position_first(&self.entries, Query::DirIcon, &self.filter)
    }

    /// The largest PNG under `/usr/share/icons/`, else the first SVG under
    /// `/usr/share/icons/`.
    fn find_largest_icon_path(&self) -> (r: Option<usize>)
        ensures
            match r {
                Some(i) => if any_accepted(self.entries@, Query::SharedPng, self.filter) {
                    is_largest_accepted(self.entries@, Query::SharedPng, self.filter, i as int)
                } else {
                    is_first_accepted(self.entries@, Query::SharedSvg, self.filter, i as int)
                },
                None => !any_accepted(self.entries@, Query::SharedPng, self.filter)
                    && !any_accepted(self.entries@, Query::SharedSvg, self.filter),
            },
    {
        let png = par_largest(&self.entries, Query::SharedPng, &self.filter);
        if png.is_some() {
            return png;
        }
        par_position_first(&self.entries, Query::SharedSvg, &self.filter)
    }

    /// The largest PNG anywhere.
    fn find_png_icon(&self) -> (r: Option<usize>)
        ensures
            match r {
                Some(i) => is_largest_accepted(self.entries@, Query::AnyPng, self.filter, i as int),
                None => !any_accepted(self.entries@, Query::AnyPng, self.filter),
            },
    {
        par_largest(&self.entries, Query::AnyPng, &self.filter)
    }

    /// The first SVG anywhere.
    fn find_svg_icon(&self) -> (r: Option<usize>)
        ensures
            match r {
                Some(i) => is_first_accepted(self.entries@, Query::AnySvg, self.filter, i as int),
                None => !any_accepted(self.entries@, Query::AnySvg, self.filter),
            },
    {
        par_position_first(&self.entries, Query::AnySvg, &self.filter)
    }

    /// The icon: `/.DirIcon`; else the largest PNG under
    /// `/usr/share/icons/`; else the first SVG there; else the largest PNG
    /// anywhere; else the first SVG anywhere; finalized. All but the first
    /// stage go by the filter.
    pub fn find_icon(&self) -> (r: Option<SquashFSEntry>)
        ensures
            icon_found(self.entries@, self.filter) ==> exists|i: int|
                icon_pick(self.entries@, self.filter, i) && r == finalized(
                    self.entries@,
                    self.entries@[i],
                ),
            !icon_found(self.entries@, self.filter) ==> r is None,
            r matches Some(c) ==> !(c.kind is Symlink),
    {
        let mut icon = self.search_diricon();
        if icon.is_none() {
            icon = self.find_largest_icon_path();
        }
        if icon.is_none() {
            icon = self.find_png_icon();
        }
        if icon.is_none() {
            icon = self.find_svg_icon();
        }
        let r = self.finalize_at(icon);
        if let Some(k) = icon {
            assert(icon_pick(self.entries@, self.filter, k as int));
        }
        r
    }

    /// The first desktop entry that passes the filter, finalized.
    pub fn find_desktop(&self) -> (r: Option<SquashFSEntry>)
        ensures
            r == first_finalized(self.entries@, Query::Desktop, self.filter),
            r matches Some(c) ==> !(c.kind is Symlink),
    {
        self.first_match(Query::Desktop)
    }

    /// The first AppStream document (`appdata.xml`, `metadata.xml` or
    /// `metainfo.xml`) that passes the filter, finalized.
    pub fn find_appstream(&self) -> (r: Option<SquashFSEntry>)
        ensures
            r == first_finalized(self.entries@, Query::Appstream, self.filter),
            r matches Some(c) ==> !(c.kind is Symlink),
    {
        self.first_match(Query::Appstream)
    }
}

} // verus!