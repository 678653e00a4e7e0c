//! One side's view of a directory.

use crate::entry::{entries_view, FileEntry, FileEntryView};
use crate::path::AbsPath;
use crate::sorting::{
    arranged, sort_entries, sorted, theorem_arranged_is_the_listing_in_order, FileSorting,
};
use vstd::prelude::*;

verus! {

/// Why browsing did not go through.
#[derive(Clone, Copy, Debug, PartialEq, Eq, Structural)]
pub enum BrowseError {
    /// The local file system refused.
    Io,
    /// The remote side refused.
    Remote,
    /// The entry is no directory.
    NotADirectory,
    /// There is no entry at the index.
    NoSuchEntry,
}

/// The place of the cursor in a pane of `len` entries that had it at `cursor`:
/// where it was, or on the last entry where it would point behind the end.
pub open spec fn clamped(cursor: nat, len: nat) -> nat {
    if len == 0 {
        0
    } else if cursor >= len {
        (len - 1) as nat
    } else {
        cursor
    }
}

/// The entries that a pane shows: all of them, or those that are not hidden.
pub open spec fn shown(entries: Seq<FileEntryView>, show_hidden: bool) -> Seq<FileEntryView>
    decreases entries.len(),
{
    if entries.len() == 0 {
        entries
    } else if show_hidden || !entries.last().hidden() {
        shown(entries.drop_last(), show_hidden).push(entries.last())
    } else {
        shown(entries.drop_last(), show_hidden)
    }
}

/// The mathematical value of a [`Pane`].
pub struct PaneView {
    /// The directory that the pane shows.
    pub root_path: Seq<Seq<char>>,
    /// The directory of the first listing; `None` until a listing went through.
    pub home: Option<Seq<Seq<char>>>,
    pub entries: Seq<FileEntryView>,
    pub sort_order: FileSorting,
    pub show_hidden: bool,
    pub cursor: nat,
}

impl PaneView {
    /// The entries are in the pane's order and the cursor is on one of them.
    pub open spec fn wf(self) -> bool {
        &&& sorted(self.entries, self.sort_order)
        &&& self.cursor == clamped(self.cursor, self.entries.len())
    }

    /// A listing went through at least once.
    pub open spec fn listed(self) -> bool {
        self.home is Some
    }

    /// The way from the pane's home down to its directory, where the directory
    /// lies at or below the home.
    pub open spec fn relative(self) -> Option<Seq<Seq<char>>> {
        match self.home {
            Some(home) => if home.is_prefix_of(self.root_path) {
                Some(self.root_path.skip(home.len() as int))
            } else {
                None
            },
            None => None,
        }
    }

    /// The pane once `listing` arrived for the directory `path`: it shows that
    /// directory with the entries of the listing, in the pane's order. The
    /// first listing fixes the pane's home.
    pub open spec fn showing(self, path: Seq<Seq<char>>, listing: Seq<FileEntryView>) -> PaneView {
        PaneView {
            root_path: path,
            home: match self.home {
                Some(home) => Some(home),
                None => Some(path),
            },
            entries: arranged(listing, self.sort_order),
            cursor: clamped(self.cursor, listing.len()),
            ..self
        }
    }

    /// The pane after the answer to a new listing of its own directory: a
    /// listing that failed changes nothing.
    pub open spec fn relisted(self, listing: Result<Seq<FileEntryView>, BrowseError>) -> PaneView {
        match listing {
            Ok(entries) => self.showing(self.root_path, entries),
            Err(_) => self,
        }
    }

    /// The pane in another order.
    pub open spec fn sorted_by(self, order: FileSorting) -> PaneView {
        PaneView { entries: arranged(self.entries, order), sort_order: order, ..self }
    }
}

/// The value of the answer to a listing.
pub open spec fn listing_view(listing: Result<Vec<FileEntry>, BrowseError>) -> Result<
    Seq<FileEntryView>,
    BrowseError,
> {
    match listing {
        Ok(entries) => Ok(entries_view(entries@)),
        Err(error) => Err(error),
    }
}

/// A listing that failed leaves the pane exactly as it was.
pub proof fn theorem_failed_listing_changes_nothing(pane: PaneView, error: BrowseError)
    ensures
        pane.relisted(Err(error)) == pane,
{
}

/// A pane stays well-formed whatever listing arrives and whatever order is
/// chosen.
pub proof fn lemma_pane_stays_wf(
    pane: PaneView,
    path: Seq<Seq<char>>,
    listing: Seq<FileEntryView>,
    order: FileSorting,
)
    requires
        pane.wf(),
    ensures
        pane.showing(path, listing).wf(),
        pane.sorted_by(order).wf(),
{
    theorem_arranged_is_the_listing_in_order(listing, pane.sort_order);
    theorem_arranged_is_the_listing_in_order(pane.entries, order);
}

/// One side's view of a directory: the entries of its last listing that went
/// through, in the pane's order.
#[derive(Debug)]
pub struct Pane {
    root_path: AbsPath,
    home: Option<AbsPath>,
    entries: Vec<FileEntry>,
    sort_order: FileSorting,
    show_hidden: bool,
    cursor: usize,
}

impl View for Pane {
    type V = PaneView;

    closed spec fn view(&self) -> PaneView {
        PaneView {
            root_path: self.root_path@,
            home: match self.home {
                Some(home) => Some(home@),
                None => None,
            },
            entries: entries_view(self.entries@),
            sort_order: self.sort_order,
            show_hidden: self.show_hidden,
            cursor: self.cursor as nat,
        }
    }
}

impl Pane {
    /// The entries are in the pane's order and the cursor is on one of them.
    pub closed spec fn wf(&self) -> bool {
        self@.wf()
    }

    /// What well-formedness says of the value.
    pub proof fn lemma_wf(&self)
        requires
            self.wf(),
        ensures
            self@.wf(),
    {
    }

    /// A pane on `root_path` that has not been listed yet.
    pub fn new(root_path: AbsPath, sort_order: FileSorting, show_hidden: bool) -> (pane: Pane)
        ensures
            pane.wf(),
            pane@ == (PaneView {
                root_path: root_path@,
                home: None,
                entries: Seq::empty(),
                sort_order,
                show_hidden,
                cursor: 0,
            }),
    {
        let pane = Pane {
            root_path,
            home: None,
            entries: Vec::new(),
            sort_order,
            show_hidden,
            cursor: 0,
        };
        assert(pane@.entries =~= Seq::<FileEntryView>::empty());
        pane
    }

    /// The directory that the pane shows.
    pub fn root_path(&self) -> (path: &AbsPath)
        ensures
            path@ == self@.root_path,
    {
        &self.root_path
    }

    /// The directory of the first listing.
    pub fn home(&self) -> (home: Option<&AbsPath>)
        ensures
            home is Some <==> self@.home is Some,
            home is Some ==> home->0@ == self@.home->0,
    {
        self.home.as_ref()
    }

    /// Whether a listing went through at least once.
    pub fn is_listed(&self) -> (listed: bool)
        ensures
            listed == self@.listed(),
    {
        self.home.is_some()
    }

    /// All entries of the last listing, in the pane's order.
    pub fn entries(&self) -> (entries: &Vec<FileEntry>)
        ensures
            entries_view(entries@) == self@.entries,
    {
        &self.entries
    }

    /// The number of entries.
    pub fn len(&self) -> (n: usize)
        ensures
            n == self@.entries.len(),
    {
        self.entries.len()
    }

    /// The entry at the index.
    pub fn get(&self, i: usize) -> (entry: Option<&FileEntry>)
        ensures
            i >= self@.entries.len() ==> entry is None,
            i < self@.entries.len() ==> entry is Some && entry->0@ == self@.entries[i as int],
    {
        if i < self.entries.len() {
            Some(&self.entries[i])
        } else {
            None
        }
    }

    /// The index under the cursor.
    pub fn cursor(&self) -> (cursor: usize)
        ensures
            cursor == self@.cursor,
    {
        self.cursor
    }

    /// The entry under the cursor; none in an empty pane.
    pub fn selected(&self) -> (entry: Option<&FileEntry>)
        requires
            self.wf(),
        ensures
            self@.entries.len() == 0 ==> entry is None,
            self@.entries.len() > 0 ==> entry is Some && entry->0@ == self@.entries[self@.cursor as int],
    {
        self.get(self.cursor)
    }

    /// The order of the pane.
    pub fn sort_order(&self) -> (order: FileSorting)
        ensures
            order == self@.sort_order,
    {
        self.sort_order
    }

    /// Whether hidden entries are shown.
    pub fn show_hidden(&self) -> (show: bool)
        ensures
            show == self@.show_hidden,
    {
        self.show_hidden
    }

    /// The entries that the pane shows, in its order.
    pub fn visible(&self) -> (entries: Vec<FileEntry>)
        ensures
            entries_view(entries@) == shown(self@.entries, self@.show_hidden),
    {
        let mut out: Vec<FileEntry> = Vec::new();
        let mut i: usize = 0;
        assert(entries_view(out@) =~= shown(self@.entries.take(0), self.show_hidden));
        while i < self.entries.len()
            invariant
                i <= self.entries.len(),
                entries_view(out@) == shown(self@.entries.take(i as int), self.show_hidden),
            decreases self.entries.len() - i,
        {
            proof {
                assert(self@.entries.take(i + 1).drop_last() =~= self@.entries.take(i as int));
                assert(self@.entries.take(i + 1).last() == self.entries[i as int]@);
            }
            if self.show_hidden || !self.entries[i].is_hidden() {
                let ghost was = entries_view(out@);
                out.push(self.entries[i].clone());
                assert(entries_view(out@) =~= was.push(self.entries[i as int]@));
            }
            i += 1;
        }
        assert(self@.entries.take(self.entries.len() as int) =~= self@.entries);
        out
    }

    /// Puts the cursor on the entry at the index, or on the last entry where
    /// the index points behind the end.
    pub fn set_cursor(&mut self, cursor: usize)
        requires
            old(self).wf(),
        ensures
            final(self).wf(),
            final(self)@ == (PaneView {
                cursor: clamped(cursor as nat, old(self)@.entries.len()),
                ..old(self)@
            }),
    {
        let n = self.entries.len();
        self.cursor = if n == 0 {
            0
        } else if cursor >= n {
            n - 1
        } else {
            cursor
        };
    }

    /// Shows or hides the hidden entries.
    pub fn toggle_hidden(&mut self)
        requires
            old(self).wf(),
        ensures
            final(self).wf(),
            final(self)@ == (PaneView { show_hidden: !old(self)@.show_hidden, ..old(self)@ }),
    {
        self.show_hidden = !self.show_hidden;
    }

    /// Changes the order of the pane and puts its entries in that order.
    pub fn set_sorting(&mut self, order: FileSorting)
        requires
            old(self).wf(),
        ensures
            final(self).wf(),
            final(self)@ == old(self)@.sorted_by(order),
    {
        proof {
            lemma_pane_stays_wf(self@, self@.root_path, self@.entries, order);
        }
        let mut entries: Vec<FileEntry> = Vec::new();
        std::mem::swap(&mut self.entries, &mut entries);
        self.entries = sort_entries(entries, order);
        self.sort_order = order;
    }

    /// Takes in the listing of the directory `path`: the pane now shows that
    /// directory with these entries, in its order.
    pub fn show(&mut self, path: AbsPath, listing: Vec<FileEntry>)
        requires
            old(self).wf(),
        ensures
            final(self).wf(),
            final(self)@ == old(self)@.showing(path@, entries_view(listing@)),
    {
        proof {
            lemma_pane_stays_wf(self@, path@, entries_view(listing@), self.sort_order);
        }
        let n = listing.len();
        self.entries = sort_entries(listing, self.sort_order);
        if self.home.is_none() {
            self.home = Some(path.clone());
        }
        self.root_path = path;
        self.cursor = if n == 0 {
            0
        } else if self.cursor >= n {
            n - 1
        } else {
            self.cursor
        };
    }

    /// Takes in the answer to a new listing of the pane's own directory. Where
    /// the listing failed, the pane stays exactly as it was and the error is
    /// handed back.
    pub fn relist(&mut self, listing: Result<Vec<FileEntry>, BrowseError>) -> (result: Result<
        (),
        BrowseError,
    >)
        requires
            old(self).wf(),
        ensures
            final(self).wf(),
            final(self)@ == old(self)@.relisted(listing_view(listing)),
            result == match listing {
                Ok(_) => Ok::<(), BrowseError>(()),
                Err(error) => Err::<(), BrowseError>(error),
            },
    {
        match listing {
            Ok(entries) => {
                let path = self.root_path.clone();
                self.show(path, entries);
                Ok(())
            },
            Err(error) => Err(error),
        }
    }

    /// The way from the pane's home down to its directory.
    pub fn relative(&self) -> (names: Option<Vec<String>>)
        ensures
            names is Some <==> self@.relative() is Some,
            names is Some ==> crate::path::names_of(names->0@) == self@.relative()->0,
    {
        match &self.home {
            Some(home) => self.root_path.relative_to(home),
            None => None,
        }
    }
}

} // verus!
