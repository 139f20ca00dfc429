use vstd::prelude::*;
use crate::path::DirPath;

verus! {

/// One filesystem object shown as one list row: its name and whether it is
/// a directory. A snapshot taken at listing time, not a live handle.
#[derive(Clone)]
pub struct DirectoryEntry {
    pub name: String,
    pub is_directory: bool,
}

/// The mathematical content of a `DirectoryEntry`.
pub ghost struct EntryModel {
    pub name: Seq<char>,
    pub is_directory: bool,
}

impl View for DirectoryEntry {
    type V = EntryModel;

    open spec fn view(&self) -> EntryModel {
        EntryModel { name: self.name@, is_directory: self.is_directory }
    }
}

impl DirectoryEntry {
    pub fn new(name: String, is_directory: bool) -> (r: DirectoryEntry)
        ensures
            r@.name == name@,
            r@.is_directory == is_directory,
    {
        DirectoryEntry { name, is_directory }
    }
}

/// A snapshot of one directory's contents: the path it was read from and
/// its entries in enumeration order. Replaced whole on every directory
/// change; an empty listing is valid.
pub struct DirectoryListing {
    pub path: DirPath,
    pub entries: Vec<DirectoryEntry>,
}

impl View for DirectoryListing {
    type V = Seq<EntryModel>;

    open spec fn view(&self) -> Seq<EntryModel> {
        self.entries@.map_values(|e: DirectoryEntry| e@)
    }
}

impl DirectoryListing {
    pub fn new(path: DirPath, entries: Vec<DirectoryEntry>) -> (r: DirectoryListing)
        ensures
            r.path == path,
            r.entries@ == entries@,
            r@ =~= entries@.map_values(|e: DirectoryEntry| e@),
    {
        DirectoryListing { path, entries }
    }

    pub fn len(&self) -> (n: usize)
        ensures
            n == self@.len(),
    {
        self.entries.len()
    }
}

/// Why a directory could not be listed.
pub enum ListError {
    /// The path could not be opened and enumerated as a directory: missing,
    /// not a directory, or unreadable.
    Unreadable,
}

impl ListError {
    /// A one-line message for the next render.
    pub fn message(&self) -> (r: String)
        ensures
            r@ == "directory unreadable"@,
    {
        String::from_str("directory unreadable")
    }
}

} // verus!
