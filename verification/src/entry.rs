//! Directory entries as a listing reports them.

use crate::path::AbsPath;
use vstd::prelude::*;

verus! {

/// What kind of object an entry is.
#[derive(Debug)]
pub enum EntryKind {
    File,
    Directory,
    /// A symbolic link and the target it names.
    Symlink(String),
}

/// The mathematical value of an [`EntryKind`].
pub enum EntryKindView {
    File,
    Directory,
    Symlink(Seq<char>),
}

impl View for EntryKind {
    type V = EntryKindView;

    open spec fn view(&self) -> EntryKindView {
        match self {
            EntryKind::File => EntryKindView::File,
            EntryKind::Directory => EntryKindView::Directory,
            EntryKind::Symlink(target) => EntryKindView::Symlink(target@),
        }
    }
}

impl Clone for EntryKind {
    fn clone(&self) -> (copy: EntryKind)
        ensures
            copy@ == self@,
    {
        match self {
            EntryKind::File => EntryKind::File,
            EntryKind::Directory => EntryKind::Directory,
            EntryKind::Symlink(target) => EntryKind::Symlink(target.clone()),
        }
    }
}

/// One object of a directory listing. A listing makes its entries anew; an
/// entry is never changed afterwards.
#[derive(Debug)]
pub struct FileEntry {
    pub name: String,
    pub absolute_path: AbsPath,
    pub kind: EntryKind,
    /// Size in bytes.
    pub size: u64,
    /// Seconds since the Unix epoch of the last change.
    pub modified_time: u64,
    /// Unix permission bits.
    pub permissions: u32,
}

/// The mathematical value of a [`FileEntry`].
pub struct FileEntryView {
    pub name: Seq<char>,
    pub absolute_path: Seq<Seq<char>>,
    pub kind: EntryKindView,
    pub size: u64,
    pub modified_time: u64,
    pub permissions: u32,
}

impl View for FileEntry {
    type V = FileEntryView;

    open spec fn view(&self) -> FileEntryView {
        FileEntryView {
            name: self.name@,
            absolute_path: self.absolute_path@,
            kind: self.kind@,
            size: self.size,
            modified_time: self.modified_time,
            permissions: self.permissions,
        }
    }
}

impl FileEntryView {
    /// Whether the name marks the entry as hidden: it begins with a dot.
    pub open spec fn hidden(self) -> bool {
        self.name.len() > 0 && self.name[0] == '.'
    }
}

impl Clone for FileEntry {
    fn clone(&self) -> (copy: FileEntry)
        ensures
            copy@ == self@,
    {
        FileEntry {
            name: self.name.clone(),
            absolute_path: self.absolute_path.clone(),
            kind: self.kind.clone(),
            size: self.size,
            modified_time: self.modified_time,
            permissions: self.permissions,
        }
    }
}

impl FileEntry {
    /// An entry for the object called `name` inside the directory `parent`.
    pub fn new(
        parent: &AbsPath,
        name: &str,
        kind: EntryKind,
        size: u64,
        modified_time: u64,
        permissions: u32,
    ) -> (entry: FileEntry)
        ensures
            entry@ == (FileEntryView {
                name: name@,
                absolute_path: parent@.push(name@),
                kind: kind@,
                size,
                modified_time,
                permissions,
            }),
    {
        FileEntry {
            name: name.to_owned(),
            absolute_path: parent.join(name),
            kind,
            size,
            modified_time,
            permissions,
        }
    }

    /// Whether the entry is a directory.
    pub fn is_dir(&self) -> (dir: bool)
        ensures
            dir == (self@.kind is Directory),
    {
        match self.kind {
            EntryKind::Directory => true,
            _ => false,
        }
    }

    /// Whether the entry is hidden.
    pub fn is_hidden(&self) -> (hidden: bool)
        ensures
            hidden == self@.hidden(),
    {
        let name = self.name.as_str();
        !name.is_empty() && name.get_char(0) == '.'
    }
}

/// The values of the entries of a listing, in order.
pub open spec fn entries_view(entries: Seq<FileEntry>) -> Seq<FileEntryView> {
    entries.map_values(|e: FileEntry| e@)
}

/// Whether some entry of the listing bears the name.
pub open spec fn has_name(entries: Seq<FileEntryView>, name: Seq<char>) -> bool {
    exists|i: int| 0 <= i < entries.len() && (#[trigger] entries[i]).name == name
}

/// Copies a listing.
pub fn clone_entries(entries: &Vec<FileEntry>) -> (copy: Vec<FileEntry>)
    ensures
        entries_view(copy@) == entries_view(entries@),
{
    let mut copy: Vec<FileEntry> = Vec::new();
    let mut i: usize = 0;
    while i < entries.len()
        invariant
            i <= entries.len(),
            copy.len() == i,
            forall|j: int| 0 <= j < i ==> copy[j]@ == entries[j]@,
        decreases entries.len() - i,
    {
        copy.push(entries[i].clone());
        i += 1;
    }
    assert(entries_view(copy@) =~= entries_view(entries@));
    copy
}

/// Looks for an entry by name.
pub fn contains_name(entries: &Vec<FileEntry>, name: &String) -> (found: bool)
    ensures
        found == has_name(entries_view(entries@), name@),
{
    let mut i: usize = 0;
    while i < entries.len()
        invariant
            i <= entries.len(),
            forall|j: int| 0 <= j < i ==> entries[j]@.name != name@,
        decreases entries.len() - i,
    {
        if entries[i].name == *name {
            assert(entries_view(entries@)[i as int].name == name@);
            return true;
        }
        i += 1;
    }
    assert(forall|j: int| 0 <= j < entries.len() ==> entries_view(entries@)[j] == entries[j]@);
    false
}

} // verus!
