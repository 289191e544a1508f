use vstd::prelude::*;

use crate::entry::{EntryKind, SquashFSEntry};
use crate::query::same_text;
use crate::text::{after_last, ends_with, has_suffix, last_of, lemma_last_of_bounds};

verus! {

/// The last component of a path: what follows its last `/`.
pub open spec fn file_name_of(p: Seq<char>) -> Seq<char> {
    p.subrange(last_of(p, '/') + 1, p.len() as int)
}

/// A path names a file when its last component is neither empty, `.` nor `..`.
pub open spec fn names_file(p: Seq<char>) -> bool {
    let n = file_name_of(p);
    n.len() > 0 && n != "."@ && n != ".."@
}

/// The extension of a file name: what follows its last `.`, when that dot
/// is not the first character.
pub open spec fn extension_of(name: Seq<char>) -> Option<Seq<char>> {
    if last_of(name, '.') > 0 {
        Some(name.subrange(last_of(name, '.') + 1, name.len() as int))
    } else {
        None
    }
}

/// The name under which an entry at `path` is written: with no base name
/// given, its own file name; with base name `o`, `o` and the extension,
/// keeping `appdata` or `metadata` before it for AppStream documents; a file
/// name without extension stays as it is. `None` when the path names no file.
pub open spec fn output_name_of(path: Seq<char>, o: Option<Seq<char>>) -> Option<Seq<char>> {
    let name = file_name_of(path);
    if !names_file(path) {
        None
    } else {
        match o {
            None => Some(name),
            Some(o) => match extension_of(name) {
                None => Some(name),
                Some(ext) => if has_suffix(name, "appdata.xml"@) {
                    Some(o + ".appdata."@ + ext)
                } else if has_suffix(name, "metadata.xml"@) {
                    Some(o + ".metadata."@ + ext)
                } else {
                    Some(o + "."@ + ext)
                },
            },
        }
    }
}

/// The characters of an optional base name.
pub open spec fn base_view(o: Option<&str>) -> Option<Seq<char>> {
    match o {
        Some(o) => Some(o@),
        None => None,
    }
}

/// The name under which an entry at `path` is written, given an optional
/// base name to write it under.
pub fn output_file_name(path: &str, output_name: Option<&str>) -> (r: Option<String>)
    ensures
        r matches Some(s) ==> output_name_of(path@, base_view(output_name)) == Some(s@),
        r is None ==> output_name_of(path@, base_view(output_name)) is None,
{
    let start = after_last(path, '/');
    let len = path.unicode_len();
    proof {
        lemma_last_of_bounds(path@, '/');
    }
    let name = path.substring_char(start, len);
    if name.unicode_len() == 0 || same_text(name, ".") || same_text(name, "..") {
        return None;
    }
    match output_name {
        None => Some(String::from_str(name)),
        Some(o) => {
            let dot = after_last(name, '.');
            proof {
                lemma_last_of_bounds(name@, '.');
            }
            if dot <= 1 {
                return Some(String::from_str(name));
            }
            let ext = name.substring_char(dot, name.unicode_len());
            let mut r = String::from_str(o);
            if ends_with(name, "appdata.xml") {
                r.append(".appdata.");
            } else if ends_with(name, "metadata.xml") {
                r.append(".metadata.");
            } else {
                r.append(".");
            }
            r.append(ext);
            Some(r)
        },
    }
}

/// How one entry is written by name: the file name, and the permission bits
/// to give it (`None`: the defaults of file creation).
#[derive(Debug)]
pub struct WritePlan {
    pub file_name: String,
    pub mode: Option<u16>,
}

/// The plan for writing `entry` into a directory, when it is a file whose
/// path names one: under the name [`output_file_name`] gives, with the
/// entry's permission bits exactly when they are to be copied.
pub fn write_plan(entry: &SquashFSEntry, output_name: Option<&str>, copy_permissions: bool) -> (r:
    Option<WritePlan>)
    ensures
        match r {
            Some(p) => entry.kind is File && output_name_of(
                entry.path@,
                base_view(output_name),
            ) == Some(p.file_name@) && p.mode == (if copy_permissions {
                Some(entry.permissions)
            } else {
                None
            }),
            None => !(entry.kind is File) || output_name_of(
                entry.path@,
                base_view(output_name),
            ) is None,
        },
{
    match entry.kind {
        EntryKind::File => {},
        _ => return None,
    }
    match output_file_name(entry.path.as_str(), output_name) {
        Some(file_name) => Some(
            WritePlan {
                file_name,
                mode: if copy_permissions {
                    Some(entry.permissions)
                } else {
                    None
                },
            },
        ),
        None => None,
    }
}

/// A path with one leading `/` taken off, so that it lies under the
/// directory that the image is unpacked into.
pub open spec fn strip_root(p: Seq<char>) -> Seq<char> {
    if p.len() > 0 && p[0] == '/' {
        p.drop_first()
    } else {
        p
    }
}

/// What unpacking the whole image does for one entry. Paths are relative to
/// the output directory.
#[derive(Debug)]
pub enum ExtractAction {
    /// Nothing: the destination exists already, or the entry is of no kind
    /// that is written.
    Skip,
    /// Write the file's content to `path` and give it `mode`.
    WriteFile { path: String, mode: u16 },
    /// Create the directory `path` and give it `mode`.
    CreateDir { path: String, mode: u16 },
    /// Create at `path` a link to `target`, re-rooted under the output
    /// directory.
    MakeSymlink { path: String, target: String },
}

/// The action for entry `e` when its destination does or does not exist.
pub open spec fn action_of(e: SquashFSEntry, exists: bool) -> ExtractActionView {
    if exists {
        ExtractActionView::Skip
    } else {
        match e.kind {
            EntryKind::File => ExtractActionView::WriteFile(strip_root(e.path@), e.permissions),
            EntryKind::Directory => ExtractActionView::CreateDir(strip_root(e.path@), e.permissions),
            EntryKind::Symlink(t) => ExtractActionView::MakeSymlink(strip_root(e.path@), strip_root(t@)),
            EntryKind::Other => ExtractActionView::Skip,
        }
    }
}

/// An [`ExtractAction`] with its strings as characters.
pub enum ExtractActionView {
    Skip,
    WriteFile(Seq<char>, u16),
    CreateDir(Seq<char>, u16),
    MakeSymlink(Seq<char>, Seq<char>),
}

impl View for ExtractAction {
    type V = ExtractActionView;

    open spec fn view(&self) -> ExtractActionView {
        match self {
            ExtractAction::Skip => ExtractActionView::Skip,
            ExtractAction::WriteFile { path, mode } => ExtractActionView::WriteFile(path@, *mode),
            ExtractAction::CreateDir { path, mode } => ExtractActionView::CreateDir(path@, *mode),
            ExtractAction::MakeSymlink { path, target } => ExtractActionView::MakeSymlink(
                path@,
                target@,
            ),
        }
    }
}

/// `p` with one leading `/` taken off.
pub fn relative_path(p: &str) -> (r: String)
    ensures
        r@ == strip_root(p@),
{
    let n = p.unicode_len();
    if n > 0 && p.get_char(0) == '/' {
        let rest = p.substring_char(1, n);
        assert(rest@ =~= p@.drop_first());
        String::from_str(rest)
    } else {
        String::from_str(p)
    }
}

/// What unpacking does for `entry`, given whether its destination exists:
/// nothing when it does, so that unpacking twice writes nothing the second
/// time; else the file, directory or link, with the entry's permission bits.
pub fn extract_action(entry: &SquashFSEntry, exists: bool) -> (r: ExtractAction)
    ensures
        r@ == action_of(*entry, exists),
{
    if exists {
        return ExtractAction::Skip;
    }
    match &entry.kind {
        EntryKind::File => ExtractAction::WriteFile {
            path: relative_path(entry.path.as_str()),
            mode: entry.permissions,
        },
        EntryKind::Directory => ExtractAction::CreateDir {
            path: relative_path(entry.path.as_str()),
            mode: entry.permissions,
        },
        EntryKind::Symlink(t) => ExtractAction::MakeSymlink {
            path: relative_path(entry.path.as_str()),
            target: relative_path(t.as_str()),
        },
        EntryKind::Other => ExtractAction::Skip,
    }
}

/// Unpacking is idempotent: once every entry's destination exists, a
/// second run writes nothing.
pub proof fn lemma_second_extraction_writes_nothing(es: Seq<SquashFSEntry>)
    ensures
        forall|i: int| 0 <= i < es.len() ==> action_of(#[trigger] es[i], true) == ExtractActionView::Skip,
{
}

/// Unpacking gives every file and directory it writes the permission bits
/// that the entry's header holds.
pub proof fn lemma_extraction_keeps_permissions(e: SquashFSEntry)
    ensures
        e.kind is File ==> action_of(e, false) == ExtractActionView::WriteFile(strip_root(e.path@), e.permissions),
        e.kind is Directory ==> action_of(e, false) == ExtractActionView::CreateDir(strip_root(e.path@), e.permissions),
{
}

} // verus!
