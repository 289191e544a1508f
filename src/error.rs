use vstd::prelude::*;

verus! {

/// The ways in which working on an AppImage can fail.
#[derive(Debug)]
pub enum SquishyError {
    /// No SquashFS superblock where the image should start.
    NoSquashFsFound,
    /// Reading the host file failed, or what was read cannot be laid out.
    Io(String),
    /// The image could not be opened at the given or computed offset.
    InvalidSquashFS(String),
    /// A symbolic link could not be followed to a concrete entry.
    SymlinkError(String),
    /// A path that was asked for is not in the image.
    FileNotFound(String),
}

} // verus!
