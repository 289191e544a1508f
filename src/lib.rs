//! Locating and unpacking the filesystem image that an AppImage carries after
//! its ELF data: the byte offset where the image starts, the resolvers that
//! pick the icon, desktop entry and AppStream document out of the image's
//! entries, and the plans that the writers on disk follow.

pub mod appimage;
pub mod elf;
pub mod entry;
pub mod error;
pub mod extract;
pub mod paths;
pub mod query;
pub mod text;
