//! The two panes side by side.

use crate::entry::{entries_view, FileEntry, FileEntryView};
use crate::pane::{listing_view, BrowseError, Pane, PaneView};
use crate::path::AbsPath;
use crate::sorting::{arranged, FileSorting};
use vstd::prelude::*;

verus! {

/// One of the two sides of the client.
#[derive(Clone, Copy, Debug, PartialEq, Eq, Structural)]
pub enum Side {
    Local,
    Remote,
}

impl Side {
    /// The side across.
    pub open spec fn other(self) -> Side {
        match self {
            Side::Local => Side::Remote,
            Side::Remote => Side::Local,
        }
    }

    /// The side across.
    pub fn opposite(self) -> (side: Side)
        ensures
            side == self.other(),
    {
        match self {
            Side::Local => Side::Remote,
            Side::Remote => Side::Local,
        }
    }
}

/// What toggling the browsing in step came to.
#[derive(Debug)]
pub enum SyncToggle {
    /// The panes are no longer browsed in step.
    Disabled,
    /// The panes are browsed in step from now on; they stand at the same place
    /// already.
    Enabled,
    /// The panes are browsed in step from now on, but the remote pane stands
    /// elsewhere: `target` is the remote directory that mirrors the local one.
    /// The user is to say whether it shall be entered, and made if it is
    /// missing.
    Diverged { target: AbsPath },
    /// One of the panes has not been listed yet, or the local pane has left
    /// its home; nothing changed.
    Unavailable,
}

/// The mathematical value of a [`SyncToggle`].
pub enum SyncToggleView {
    Disabled,
    Enabled,
    Diverged { target: Seq<Seq<char>> },
    Unavailable,
}

impl View for SyncToggle {
    type V = SyncToggleView;

    open spec fn view(&self) -> SyncToggleView {
        match self {
            SyncToggle::Disabled => SyncToggleView::Disabled,
            SyncToggle::Enabled => SyncToggleView::Enabled,
            SyncToggle::Diverged { target } => SyncToggleView::Diverged { target: target@ },
            SyncToggle::Unavailable => SyncToggleView::Unavailable,
        }
    }
}

/// The mathematical value of a [`Found`].
pub struct FoundView {
    pub side: Side,
    pub pane: PaneView,
}

/// The mathematical value of a [`Browser`].
pub struct BrowserView {
    pub local: PaneView,
    pub remote: PaneView,
    /// The side that is searched and the pane of what was found, during a
    /// search.
    pub found: Option<FoundView>,
    pub sync_browsing: bool,
}

impl BrowserView {
    /// Every pane is well-formed.
    pub open spec fn wf(self) -> bool {
        &&& self.local.wf()
        &&& self.remote.wf()
        &&& self.found is Some ==> self.found->0.pane.wf()
    }

    /// The pane of the given side.
    pub open spec fn pane(self, side: Side) -> PaneView {
        match side {
            Side::Local => self.local,
            Side::Remote => self.remote,
        }
    }

    /// The browser with another pane on the given side.
    pub open spec fn with_pane(self, side: Side, pane: PaneView) -> BrowserView {
        match side {
            Side::Local => BrowserView { local: pane, ..self },
            Side::Remote => BrowserView { remote: pane, ..self },
        }
    }

    /// The browser after the answer to a new listing of the directory of one
    /// pane.
    pub open spec fn listed(
        self,
        side: Side,
        listing: Result<Seq<FileEntryView>, BrowseError>,
    ) -> BrowserView {
        self.with_pane(side, self.pane(side).relisted(listing))
    }

    /// The browser after the answer to the listing of `path`, which one pane is
    /// about to enter: the pane shows `path` where the listing went through,
    /// and stays where it was where it failed.
    pub open spec fn entered(
        self,
        side: Side,
        path: Seq<Seq<char>>,
        listing: Result<Seq<FileEntryView>, BrowseError>,
    ) -> BrowserView {
        match listing {
            Ok(entries) => self.with_pane(side, self.pane(side).showing(path, entries)),
            Err(_) => self,
        }
    }

    /// The browser with the pane of what a search on `side` found.
    pub open spec fn with_found(self, side: Side, entries: Seq<FileEntryView>) -> BrowserView {
        BrowserView {
            found: Some(
                FoundView {
                    side,
                    pane: PaneView {
                        root_path: self.pane(side).root_path,
                        home: Some(self.pane(side).root_path),
                        entries: arranged(entries, self.pane(side).sort_order),
                        sort_order: self.pane(side).sort_order,
                        show_hidden: self.pane(side).show_hidden,
                        cursor: 0,
                    },
                },
            ),
            ..self
        }
    }

    /// Where the pane across goes when the pane of `side` goes to `path`: as far
    /// below its own home as `path` lies below the home of `side`.
    pub open spec fn mirror(self, side: Side, path: Seq<Seq<char>>) -> Option<Seq<Seq<char>>> {
        match (self.pane(side).home, self.pane(side.other()).home) {
            (Some(here), Some(there)) => if here.is_prefix_of(path) {
                Some(there + path.skip(here.len() as int))
            } else {
                None
            },
            _ => None,
        }
    }

    /// What toggling the browsing in step comes to.
    pub open spec fn sync_toggle(self) -> SyncToggleView {
        if self.sync_browsing {
            SyncToggleView::Disabled
        } else {
            match (self.local.relative(), self.remote.home) {
                (Some(way), Some(remote_home)) => if self.remote.relative() == Some(way) {
                    SyncToggleView::Enabled
                } else {
                    SyncToggleView::Diverged { target: remote_home + way }
                },
                _ => SyncToggleView::Unavailable,
            }
        }
    }

    /// The browser after the toggle.
    pub open spec fn toggled(self) -> BrowserView {
        BrowserView {
            sync_browsing: self.sync_toggle() is Enabled || self.sync_toggle() is Diverged,
            ..self
        }
    }
}

/// A listing that failed changes nothing in the browser: both panes hold what
/// they held, and a directory that could not be listed is not entered.
pub proof fn theorem_failed_listing_keeps_the_panes(
    browser: BrowserView,
    side: Side,
    path: Seq<Seq<char>>,
    error: BrowseError,
)
    ensures
        browser.listed(side, Err(error)) == browser,
        browser.entered(side, path, Err(error)) == browser,
{
}

/// Panes that stand at the same place below their homes are browsed in step
/// without further ado: the toggle reports no divergence.
pub proof fn theorem_matching_panes_sync_quietly(browser: BrowserView)
    requires
        !browser.sync_browsing,
        browser.local.relative() is Some,
        browser.remote.relative() == browser.local.relative(),
    ensures
        browser.sync_toggle() is Enabled,
        browser.toggled().sync_browsing,
{
}

/// What was found by a search on one side.
#[derive(Debug)]
pub struct Found {
    pub side: Side,
    pub pane: Pane,
}

impl View for Found {
    type V = FoundView;

    open spec fn view(&self) -> FoundView {
        FoundView { side: self.side, pane: self.pane@ }
    }
}

/// The local pane, the remote pane, and during a search the pane of what was
/// found.
#[derive(Debug)]
pub struct Browser {
    local: Pane,
    remote: Pane,
    found: Option<Found>,
    sync_browsing: bool,
}

impl View for Browser {
    type V = BrowserView;

    closed spec fn view(&self) -> BrowserView {
        BrowserView {
            local: self.local@,
            remote: self.remote@,
            found: match self.found {
                Some(found) => Some(found@),
                None => None,
            },
            sync_browsing: self.sync_browsing,
        }
    }
}

impl Browser {
    /// Every pane is well-formed.
    pub closed spec fn wf(&self) -> bool {
        &&& self.local.wf()
        &&& self.remote.wf()
        &&& self.found is Some ==> self.found->0.pane.wf()
    }

    /// What well-formedness says of the value.
    pub proof fn lemma_wf(&self)
        requires
            self.wf(),
        ensures
            self@.wf(),
    {
        self.local.lemma_wf();
        self.remote.lemma_wf();
        if self.found is Some {
            self.found->0.pane.lemma_wf();
        }
    }

    /// A browser whose panes stand on the given directories and have not been
    /// listed yet.
    pub fn new(
        local_root: AbsPath,
        remote_root: AbsPath,
        sort_order: FileSorting,
        show_hidden: bool,
    ) -> (browser: Browser)
        ensures
            browser.wf(),
            browser@ == (BrowserView {
                local: PaneView {
                    root_path: local_root@,
                    home: None,
                    entries: Seq::empty(),
                    sort_order,
                    show_hidden,
                    cursor: 0,
                },
                remote: PaneView {
                    root_path: remote_root@,
                    home: None,
                    entries: Seq::empty(),
                    sort_order,
                    show_hidden,
                    cursor: 0,
                },
                found: None,
                sync_browsing: false,
            }),
    {
        Browser {
            local: Pane::new(local_root, sort_order, show_hidden),
            remote: Pane::new(remote_root, sort_order, show_hidden),
            found: None,
            sync_browsing: false,
        }
    }

    /// The local pane.
    pub fn local(&self) -> (pane: &Pane)
        ensures
            pane@ == self@.local,
            self.wf() ==> pane.wf(),
    {
        &self.local
    }

    /// The remote pane.
    pub fn remote(&self) -> (pane: &Pane)
        ensures
            pane@ == self@.remote,
            self.wf() ==> pane.wf(),
    {
        &self.remote
    }

    /// The pane of the given side.
    pub fn pane(&self, side: Side) -> (pane: &Pane)
        ensures
            pane@ == self@.pane(side),
            self.wf() ==> pane.wf(),
    {
        match side {
            Side::Local => &self.local,
            Side::Remote => &self.remote,
        }
    }

    /// The pane of what a search found, while a search is open.
    pub fn found(&self) -> (found: Option<&Found>)
        ensures
            found is Some <==> self@.found is Some,
            found is Some ==> found->0@ == self@.found->0,
            found is Some && self.wf() ==> found->0.pane.wf(),
    {
        self.found.as_ref()
    }

    /// Whether the panes are browsed in step.
    pub fn sync_browsing(&self) -> (on: bool)
        ensures
            on == self@.sync_browsing,
    {
        self.sync_browsing
    }

    /// Takes in the answer to a new listing of the directory of one pane. A
    /// listing that failed leaves everything as it was and hands the error
    /// back.
    pub fn list(&mut self, side: Side, listing: Result<Vec<FileEntry>, BrowseError>) -> (result:
        Result<(), BrowseError>)
        requires
            old(self).wf(),
        ensures
            final(self).wf(),
            final(self)@ == old(self)@.listed(side, listing_view(listing)),
            result == match listing {
                Ok(_) => Ok::<(), BrowseError>(()),
                Err(error) => Err::<(), BrowseError>(error),
            },
    {
        match side {
            Side::Local => self.local.relist(listing),
            Side::Remote => self.remote.relist(listing),
        }
    }

    /// The directory that entering the entry at the index leads to. Only a
    /// directory can be entered.
    pub fn target_of(&self, side: Side, index: usize) -> (target: Result<AbsPath, BrowseError>)
        ensures
            match target {
                Ok(path) => index < self@.pane(side).entries.len() && self@.pane(
                    side,
                ).entries[index as int].kind is Directory && path@ == self@.pane(
                    side,
                ).entries[index as int].absolute_path,
                Err(error) => if index >= self@.pane(side).entries.len() {
                    error == BrowseError::NoSuchEntry
                } else {
                    error == BrowseError::NotADirectory && !(self@.pane(
                        side,
                    ).entries[index as int].kind is Directory)
                },
            },
    {
        match self.pane(side).get(index) {
            None => Err(BrowseError::NoSuchEntry),
            Some(entry) => if entry.is_dir() {
                Ok(entry.absolute_path.clone())
            } else {
                Err(BrowseError::NotADirectory)
            },
        }
    }

    /// Takes in the answer to the listing of `path`, which one pane is about to
    /// enter. Where the listing went through the pane shows `path`; where it
    /// failed the pane stays on its directory with its entries, and the error
    /// is handed back.
    pub fn enter_directory(
        &mut self,
        side: Side,
        path: AbsPath,
        listing: Result<Vec<FileEntry>, BrowseError>,
    ) -> (result: Result<(), BrowseError>)
        requires
            old(self).wf(),
        ensures
            final(self).wf(),
            final(self)@ == old(self)@.entered(side, path@, listing_view(listing)),
            result == match listing {
                Ok(_) => Ok::<(), BrowseError>(()),
                Err(error) => Err::<(), BrowseError>(error),
            },
    {
        match listing {
            Ok(entries) => {
                match side {
                    Side::Local => self.local.show(path, entries),
                    Side::Remote => self.remote.show(path, entries),
                }
                Ok(())
            },
            Err(error) => Err(error),
        }
    }

    /// Where the pane across goes when the pane of `side` goes to `path`.
    pub fn mirror(&self, side: Side, path: &AbsPath) -> (target: Option<AbsPath>)
        ensures
            target is Some <==> self@.mirror(side, path@) is Some,
            target is Some ==> target->0@ == self@.mirror(side, path@)->0,
    {
        let here = self.pane(side).home();
        let there = self.pane(side.opposite()).home();
        match (here, there) {
            (Some(here), Some(there)) => path.rebase(here, there),
            _ => None,
        }
    }

    /// Turns browsing in step on or off. It can be turned on only once both
    /// panes have been listed and while the local pane stands at or below its
    /// home. Where the remote pane then stands elsewhere than the local one,
    /// the divergence is reported with the remote directory that mirrors the
    /// local one; no directory is entered or made on the quiet.
    pub fn toggle_sync_browsing(&mut self) -> (toggle: SyncToggle)
        requires
            old(self).wf(),
        ensures
            final(self).wf(),
            toggle@ == old(self)@.sync_toggle(),
            final(self)@ == old(self)@.toggled(),
    {
        if self.sync_browsing {
            self.sync_browsing = false;
            return SyncToggle::Disabled;
        }
        let way = match self.local.relative() {
            Some(way) => way,
            None => {
                return SyncToggle::Unavailable;
            },
        };
        let target = match self.remote.home() {
            Some(home) => home.join_all(&way),
            None => {
                return SyncToggle::Unavailable;
            },
        };
        proof {
            let home = self@.remote.home->0;
            let here = self@.remote.root_path;
            let rel = self@.local.relative()->0;
            // The remote pane stands at the mirror exactly if its own way down
            // from its home is the local one.
            if here == home + rel {
                assert(here.subrange(0, home.len() as int) =~= home);
                assert(here.skip(home.len() as int) =~= rel);
            }
            if self@.remote.relative() == Some(rel) {
                assert(here.subrange(0, home.len() as int) == home);
                assert(here =~= home + here.skip(home.len() as int));
            }
        }
        self.sync_browsing = true;
        if self.remote.root_path().same(&target) {
            SyncToggle::Enabled
        } else {
            SyncToggle::Diverged { target }
        }
    }

    /// Opens the pane of what a search on `side` found.
    pub fn open_found(&mut self, side: Side, entries: Vec<FileEntry>)
        requires
            old(self).wf(),
        ensures
            final(self).wf(),
            final(self)@ == old(self)@.with_found(side, entries_view(entries@)),
    {
        let here = self.pane(side);
        let mut pane = Pane::new(here.root_path().clone(), here.sort_order(), here.show_hidden());
        let path = here.root_path().clone();
        pane.show(path, entries);
        self.found = Some(Found { side, pane });
    }

    /// Closes the pane of what a search found.
    pub fn close_found(&mut self)
        requires
            old(self).wf(),
        ensures
            final(self).wf(),
            final(self)@ == (BrowserView { found: None, ..old(self)@ }),
    {
        self.found = None;
    }

    /// Shows or hides the hidden entries of one pane.
    pub fn toggle_hidden(&mut self, side: Side)
        requires
            old(self).wf(),
        ensures
            final(self).wf(),
            final(self)@ == old(self)@.with_pane(
                side,
                PaneView {
                    show_hidden: !old(self)@.pane(side).show_hidden,
                    ..old(self)@.pane(side)
                },
            ),
    {
        match side {
            Side::Local => self.local.toggle_hidden(),
            Side::Remote => self.remote.toggle_hidden(),
        }
    }

    /// Puts the cursor of one pane on the entry at the index, or on its last
    /// entry where the index points behind the end.
    pub fn set_cursor(&mut self, side: Side, cursor: usize)
        requires
            old(self).wf(),
        ensures
            final(self).wf(),
            final(self)@ == old(self)@.with_pane(
                side,
                PaneView {
                    cursor: crate::pane::clamped(
                        cursor as nat,
                        old(self)@.pane(side).entries.len(),
                    ),
                    ..old(self)@.pane(side)
                },
            ),
    {
        match side {
            Side::Local => self.local.set_cursor(cursor),
            Side::Remote => self.remote.set_cursor(cursor),
        }
    }

    /// Changes the order of one pane.
    pub fn set_sorting(&mut self, side: Side, order: FileSorting)
        requires
            old(self).wf(),
        ensures
            final(self).wf(),
            final(self)@ == old(self)@.with_pane(side, old(self)@.pane(side).sorted_by(order)),
    {
        match side {
            Side::Local => self.local.set_sorting(order),
            Side::Remote => self.remote.set_sorting(order),
        }
    }
}

} // verus!
