use vstd::prelude::*;

verus! {

/// What an entry of the image is.
#[derive(Debug)]
pub enum EntryKind {
    File,
    Directory,
    /// A symbolic link, with the path it names as stored in the image.
    Symlink(String),
    Other,
}

/// One object of the image: its absolute path, the size it declares, its
/// kind and its permission bits.
#[derive(Debug)]
pub struct SquashFSEntry {
    pub path: String,
    pub size: u64,
    pub kind: EntryKind,
    pub permissions: u16,
}

impl EntryKind {
    /// A copy equal to `self`.
    pub fn duplicate(&self) -> (r: EntryKind)
        ensures
            r == *self,
    {
        match self {
            EntryKind::File => EntryKind::File,
            EntryKind::Directory => EntryKind::Directory,
            EntryKind::Symlink(t) => EntryKind::Symlink(t.clone()),
            EntryKind::Other => EntryKind::Other,
        }
    }
}

impl SquashFSEntry {
    /// A copy equal to `self`.
    pub fn duplicate(&self) -> (r: SquashFSEntry)
        ensures
            r == *self,
    {
        SquashFSEntry {
            path: self.path.clone(),
            size: self.size,
            kind: self.kind.duplicate(),
            permissions: self.permissions,
        }
    }

    pub fn is_symlink(&self) -> (r: bool)
        ensures
            r == self.kind is Symlink,
    {
        match self.kind {
            EntryKind::Symlink(_) => true,
            _ => false,
        }
    }
}

} // verus!
