//! The local paths that are watched for changes, and what a change sets off.

use crate::entry::{FileEntry, FileEntryView};
use crate::path::AbsPath;
use vstd::prelude::*;

verus! {

/// Why the watcher refused.
#[derive(Clone, Copy, Debug, PartialEq, Eq, Structural)]
pub enum WatcherError {
    /// Change detection could not be started; nothing can be watched.
    Unavailable,
    /// As many paths are watched as the set may hold.
    CapacityExceeded,
    /// The path is not watched.
    NotWatched,
}

/// The index of the first occurrence of `path` at or behind `k`, or the length.
pub open spec fn position_from(paths: Seq<Seq<Seq<char>>>, path: Seq<Seq<char>>, k: int) -> int
    decreases paths.len() - k,
{
    if k < 0 || k >= paths.len() {
        paths.len() as int
    } else if paths[k] == path {
        k
    } else {
        position_from(paths, path, k + 1)
    }
}

/// The mathematical value of a [`WatchSet`]: the watched paths in the order in
/// which they were registered, and the most that may be watched.
pub struct WatchSetView {
    pub paths: Seq<Seq<Seq<char>>>,
    pub max: nat,
}

impl WatchSetView {
    /// No path is held twice, and no more paths than allowed.
    pub open spec fn wf(self) -> bool {
        &&& self.paths.no_duplicates()
        &&& self.paths.len() <= self.max
    }

    /// The set that watches nothing and may hold up to `max` paths.
    pub open spec fn empty(max: nat) -> WatchSetView {
        WatchSetView { paths: Seq::empty(), max }
    }

    /// Whether the path is watched.
    pub open spec fn watches(self, path: Seq<Seq<char>>) -> bool {
        self.paths.contains(path)
    }

    /// The index of `path` in the set, or the length where it is not watched.
    pub open spec fn position(self, path: Seq<Seq<char>>) -> int {
        position_from(self.paths, path, 0)
    }

    /// The answer to a registration: a path that is watched already is
    /// accepted again; a new one is accepted while there is room.
    pub open spec fn watch_result(self, path: Seq<Seq<char>>) -> Result<(), WatcherError> {
        if self.watches(path) || self.paths.len() < self.max {
            Ok(())
        } else {
            Err(WatcherError::CapacityExceeded)
        }
    }

    /// The set after a registration: a new path joins at the end where there is
    /// room; otherwise the set is as before.
    pub open spec fn watch(self, path: Seq<Seq<char>>) -> WatchSetView {
        if !self.watches(path) && self.paths.len() < self.max {
            WatchSetView { paths: self.paths.push(path), ..self }
        } else {
            self
        }
    }

    /// The set after the path was taken out.
    pub open spec fn unwatch(self, path: Seq<Seq<char>>) -> WatchSetView {
        if self.watches(path) {
            WatchSetView { paths: self.paths.remove(self.position(path)), ..self }
        } else {
            self
        }
    }

    /// The set after each of `paths` was registered in turn.
    pub open spec fn watch_all(self, paths: Seq<Seq<Seq<char>>>) -> WatchSetView
        decreases paths.len(),
    {
        if paths.len() == 0 {
            self
        } else {
            self.watch_all(paths.drop_last()).watch(paths.last())
        }
    }
}

/// What `position_from` finds.
pub proof fn lemma_position_from(paths: Seq<Seq<Seq<char>>>, path: Seq<Seq<char>>, k: int)
    requires
        0 <= k <= paths.len(),
    ensures
        k <= position_from(paths, path, k) <= paths.len(),
        forall|j: int| k <= j < position_from(paths, path, k) ==> paths[j] != path,
        position_from(paths, path, k) < paths.len() ==> paths[position_from(paths, path, k)] == path,
    decreases paths.len() - k,
{
    if k < paths.len() && paths[k] != path {
        lemma_position_from(paths, path, k + 1);
    }
}

/// The position of a path is the only index with the path at it and not before.
pub proof fn lemma_position_is(paths: Seq<Seq<Seq<char>>>, path: Seq<Seq<char>>, k: int, i: int)
    requires
        0 <= k <= i <= paths.len(),
        forall|j: int| k <= j < i ==> paths[j] != path,
        i < paths.len() ==> paths[i] == path,
    ensures
        position_from(paths, path, k) == i,
    decreases i - k,
{
    if k < i {
        lemma_position_is(paths, path, k + 1, i);
    }
}

/// Registering and taking out keep the set well-formed.
pub proof fn lemma_watch_set_stays_wf(set: WatchSetView, path: Seq<Seq<char>>)
    requires
        set.wf(),
    ensures
        set.watch(path).wf(),
        set.unwatch(path).wf(),
        !set.unwatch(path).watches(path),
        set.watches(path) ==> set.unwatch(path).paths.len() == set.paths.len() - 1,
{
    lemma_position_from(set.paths, path, 0);
    if set.watches(path) {
        let i = set.position(path);
        let r = set.paths.remove(i);
        assert forall|a: int, b: int| 0 <= a < r.len() && 0 <= b < r.len() && a != b implies r[a]
            != r[b] by {
            let a0 = if a < i {
                a
            } else {
                a + 1
            };
            let b0 = if b < i {
                b
            } else {
                b + 1
            };
            assert(r[a] == set.paths[a0]);
            assert(r[b] == set.paths[b0]);
        }
        assert forall|a: int| 0 <= a < r.len() implies r[a] != path by {
            let a0 = if a < i {
                a
            } else {
                a + 1
            };
            assert(r[a] == set.paths[a0]);
        }
    }
}

/// A full set refuses one more path and stays exactly as it was: it holds as
/// many paths after the refusal as before.
pub proof fn theorem_full_set_refuses(set: WatchSetView, path: Seq<Seq<char>>)
    requires
        set.wf(),
        set.paths.len() == set.max,
        !set.watches(path),
    ensures
        set.watch_result(path) == Err::<(), WatcherError>(WatcherError::CapacityExceeded),
        set.watch(path) == set,
        set.watch(path).paths.len() == set.paths.len(),
{
}

/// Registering paths up to the capacity succeeds every time: each of them is
/// accepted, and in the end the set holds them all, in order.
pub proof fn theorem_fills_up_to_capacity(max: nat, paths: Seq<Seq<Seq<char>>>)
    requires
        paths.no_duplicates(),
        paths.len() <= max,
    ensures
        WatchSetView::empty(max).watch_all(paths).paths == paths,
        WatchSetView::empty(max).watch_all(paths).max == max,
        forall|i: int|
            0 <= i < paths.len() ==> #[trigger] WatchSetView::empty(max).watch_all(
                paths.take(i),
            ).watch_result(paths[i]) == Ok::<(), WatcherError>(()),
    decreases paths.len(),
{
    let start = WatchSetView::empty(max);
    if paths.len() > 0 {
        let before = paths.drop_last();
        theorem_fills_up_to_capacity(max, before);
        assert(!before.contains(paths.last())) by {
            if before.contains(paths.last()) {
                let k = choose|k: int| 0 <= k < before.len() && before[k] == paths.last();
                assert(paths[k] == paths[paths.len() - 1]);
            }
        }
        assert(start.watch_all(paths).paths =~= paths);
        assert forall|i: int| 0 <= i < paths.len() implies #[trigger] start.watch_all(
            paths.take(i),
        ).watch_result(paths[i]) == Ok::<(), WatcherError>(()) by {
            if i < before.len() {
                assert(before.take(i) =~= paths.take(i));
            } else {
                assert(paths.take(i) =~= before);
            }
        }
    } else {
        assert(start.watch_all(paths).paths =~= paths);
    }
}

/// The set of watched paths.
#[derive(Debug)]
pub struct WatchSet {
    paths: Vec<AbsPath>,
    max: usize,
}

/// The values of paths, in order.
pub open spec fn path_views(paths: Seq<AbsPath>) -> Seq<Seq<Seq<char>>> {
    paths.map_values(|p: AbsPath| p@)
}

impl View for WatchSet {
    type V = WatchSetView;

    closed spec fn view(&self) -> WatchSetView {
        WatchSetView { paths: path_views(self.paths@), max: self.max as nat }
    }
}

impl WatchSet {
    /// No path is held twice, and no more paths than allowed.
    pub closed spec fn wf(&self) -> bool {
        self@.wf()
    }

    /// What well-formedness says of the value.
    pub proof fn lemma_wf(&self)
        requires
            self.wf(),
        ensures
            self@.wf(),
    {
    }

    /// A set that watches nothing and may hold up to `max` paths.
    pub fn new(max: usize) -> (set: WatchSet)
        ensures
            set.wf(),
            set@ == WatchSetView::empty(max as nat),
    {
        let set = WatchSet { paths: Vec::new(), max };
        assert(set@.paths =~= Seq::<Seq<Seq<char>>>::empty());
        set
    }

    /// Starts with an empty set where change detection could be started, which
    /// `capacity` tells: it holds the number of paths that may be watched.
    /// Without it nothing can be watched, and the error says so.
    pub fn init(capacity: Option<usize>) -> (result: Result<WatchSet, WatcherError>)
        ensures
            match capacity {
                Some(max) => result is Ok && result->Ok_0.wf() && result->Ok_0@
                    == WatchSetView::empty(max as nat),
                None => result is Err && result->Err_0 == WatcherError::Unavailable,
            },
    {
        match capacity {
            Some(max) => Ok(WatchSet::new(max)),
            None => Err(WatcherError::Unavailable),
        }
    }

    /// The number of watched paths.
    pub fn len(&self) -> (n: usize)
        ensures
            n == self@.paths.len(),
    {
        self.paths.len()
    }

    /// The most paths the set may hold.
    pub fn capacity(&self) -> (max: usize)
        ensures
            max == self@.max,
    {
        self.max
    }

    /// The watched path at the index.
    pub fn get(&self, i: usize) -> (path: Option<&AbsPath>)
        ensures
            i >= self@.paths.len() ==> path is None,
            i < self@.paths.len() ==> path is Some && path->0@ == self@.paths[i as int],
    {
        if i < self.paths.len() {
            Some(&self.paths[i])
        } else {
            None
        }
    }

    /// The index of the path in the set, or the length where it is not watched.
    fn find(&self, path: &AbsPath) -> (i: usize)
        ensures
            i == self@.position(path@),
            i <= self.paths.len(),
            i < self.paths.len() <==> self@.watches(path@),
    {
        let mut i: usize = 0;
        while i < self.paths.len()
            invariant
                i <= self.paths.len(),
                forall|j: int| 0 <= j < i ==> self@.paths[j] != path@,
            decreases self.paths.len() - i,
        {
            if self.paths[i].same(path) {
                assert(self@.paths[i as int] == path@);
                proof {
                    lemma_position_is(self@.paths, path@, 0, i as int);
                }
                return i;
            }
            i += 1;
        }
        proof {
            lemma_position_is(self@.paths, path@, 0, i as int);
        }
        i
    }

    /// Whether the path is watched.
    pub fn is_watched(&self, path: &AbsPath) -> (watched: bool)
        ensures
            watched == self@.watches(path@),
    {
        self.find(path) < self.paths.len()
    }

    /// Registers a path. A path that is watched already is accepted and
    /// changes nothing; a new one joins while there is room, and is refused
    /// with [`WatcherError::CapacityExceeded`] once the set is full.
    pub fn watch(&mut self, path: AbsPath) -> (result: Result<(), WatcherError>)
        requires
            old(self).wf(),
        ensures
            final(self).wf(),
            result == old(self)@.watch_result(path@),
            final(self)@ == old(self)@.watch(path@),
    {
        proof {
            lemma_watch_set_stays_wf(self@, path@);
        }
        if self.find(&path) < self.paths.len() {
            return Ok(());
        }
        if self.paths.len() >= self.max {
            return Err(WatcherError::CapacityExceeded);
        }
        let ghost before = self@;
        self.paths.push(path);
        assert(self@.paths =~= before.paths.push(path@));
        Ok(())
    }

    /// Takes a path out of the set; [`WatcherError::NotWatched`] where it is
    /// not in it.
    pub fn unwatch(&mut self, path: &AbsPath) -> (result: Result<(), WatcherError>)
        requires
            old(self).wf(),
        ensures
            final(self).wf(),
            result == if old(self)@.watches(path@) {
                Ok::<(), WatcherError>(())
            } else {
                Err::<(), WatcherError>(WatcherError::NotWatched)
            },
            final(self)@ == old(self)@.unwatch(path@),
    {
        proof {
            lemma_watch_set_stays_wf(self@, path@);
        }
        let i = self.find(path);
        if i >= self.paths.len() {
            return Err(WatcherError::NotWatched);
        }
        let ghost before = self@;
        let _ = self.paths.remove(i);
        assert(self@.paths =~= before.paths.remove(i as int));
        Ok(())
    }
}

/// What was seen to change on the local side.
#[derive(Debug)]
pub enum ChangeEvent {
    /// The object came into being; the entry describes it.
    Created(FileEntry),
    /// The object changed; the entry describes it as it is now.
    Modified(FileEntry),
    /// The object at the path is gone.
    Removed(AbsPath),
}

/// The mathematical value of a [`ChangeEvent`].
pub enum ChangeEventView {
    Created(FileEntryView),
    Modified(FileEntryView),
    Removed(Seq<Seq<char>>),
}

impl View for ChangeEvent {
    type V = ChangeEventView;

    open spec fn view(&self) -> ChangeEventView {
        match self {
            ChangeEvent::Created(entry) => ChangeEventView::Created(entry@),
            ChangeEvent::Modified(entry) => ChangeEventView::Modified(entry@),
            ChangeEvent::Removed(path) => ChangeEventView::Removed(path@),
        }
    }
}

impl ChangeEventView {
    /// The path of the object that changed.
    pub open spec fn path(self) -> Seq<Seq<char>> {
        match self {
            ChangeEventView::Created(entry) => entry.absolute_path,
            ChangeEventView::Modified(entry) => entry.absolute_path,
            ChangeEventView::Removed(path) => path,
        }
    }
}

/// What a local change asks of the remote side.
#[derive(Debug)]
pub enum SyncMutation {
    /// Copy the object into the remote directory.
    Upload { entry: FileEntry, dest_dir: AbsPath },
    /// Remove the remote object.
    Remove { path: AbsPath },
}

/// The mathematical value of a [`SyncMutation`].
pub enum SyncMutationView {
    Upload { entry: FileEntryView, dest_dir: Seq<Seq<char>> },
    Remove { path: Seq<Seq<char>> },
}

impl View for SyncMutation {
    type V = SyncMutationView;

    open spec fn view(&self) -> SyncMutationView {
        match self {
            SyncMutation::Upload { entry, dest_dir } => SyncMutationView::Upload {
                entry: entry@,
                dest_dir: dest_dir@,
            },
            SyncMutation::Remove { path } => SyncMutationView::Remove { path: path@ },
        }
    }
}

/// Whether `path` names an object below the directory `dir`.
pub open spec fn lies_under(path: Seq<Seq<char>>, dir: Seq<Seq<char>>) -> bool {
    dir.is_prefix_of(path) && dir.len() < path.len()
}

/// The remote path that mirrors the local `path`: it lies below `remote_cwd` as
/// `path` lies below `local_cwd`.
pub open spec fn mirror_of(
    path: Seq<Seq<char>>,
    local_cwd: Seq<Seq<char>>,
    remote_cwd: Seq<Seq<char>>,
) -> Seq<Seq<char>> {
    remote_cwd + path.skip(local_cwd.len() as int)
}

/// What a change sets off. While the panes are browsed in step, a change below
/// the local directory is mirrored on the remote side: what was created or
/// modified is copied to the mirror of the directory that holds it, what was
/// removed is removed at its mirror. Every other change sets off nothing.
pub open spec fn propagation(
    event: ChangeEventView,
    sync_browsing: bool,
    local_cwd: Seq<Seq<char>>,
    remote_cwd: Seq<Seq<char>>,
) -> Option<SyncMutationView> {
    if !sync_browsing || !lies_under(event.path(), local_cwd) {
        None
    } else {
        match event {
            ChangeEventView::Created(entry) | ChangeEventView::Modified(entry) => Some(
                SyncMutationView::Upload {
                    entry,
                    dest_dir: mirror_of(entry.absolute_path.drop_last(), local_cwd, remote_cwd),
                },
            ),
            ChangeEventView::Removed(path) => Some(
                SyncMutationView::Remove { path: mirror_of(path, local_cwd, remote_cwd) },
            ),
        }
    }
}

/// A change outside the local directory, or any change while the panes are not
/// browsed in step, sets off nothing.
pub proof fn theorem_changes_elsewhere_stay_local(
    event: ChangeEventView,
    sync_browsing: bool,
    local_cwd: Seq<Seq<char>>,
    remote_cwd: Seq<Seq<char>>,
)
    requires
        !sync_browsing || !local_cwd.is_prefix_of(event.path()),
    ensures
        propagation(event, sync_browsing, local_cwd, remote_cwd) is None,
{
}

/// Computes what a change sets off.
pub fn propagate(
    event: &ChangeEvent,
    sync_browsing: bool,
    local_cwd: &AbsPath,
    remote_cwd: &AbsPath,
) -> (mutation: Option<SyncMutation>)
    ensures
        match mutation {
            Some(m) => Some(m@) == propagation(event@, sync_browsing, local_cwd@, remote_cwd@),
            None => propagation(event@, sync_browsing, local_cwd@, remote_cwd@) is None,
        },
{
    if !sync_browsing {
        return None;
    }
    let path = match event {
        ChangeEvent::Created(entry) => &entry.absolute_path,
        ChangeEvent::Modified(entry) => &entry.absolute_path,
        ChangeEvent::Removed(path) => path,
    };
    if !path.starts_with(local_cwd) || path.depth() <= local_cwd.depth() {
        return None;
    }
    match event {
        ChangeEvent::Created(entry) | ChangeEvent::Modified(entry) => {
            let parent = match path.parent() {
                Some(parent) => parent,
                None => {
                    return None;
                },
            };
            assert(local_cwd@.is_prefix_of(parent@)) by {
                assert(parent@.subrange(0, local_cwd@.len() as int) =~= path@.subrange(
                    0,
                    local_cwd@.len() as int,
                ));
            }
            match parent.rebase(local_cwd, remote_cwd) {
                Some(dest_dir) => Some(SyncMutation::Upload { entry: entry.clone(), dest_dir }),
                None => None,
            }
        },
        ChangeEvent::Removed(_) => match path.rebase(local_cwd, remote_cwd) {
            Some(mirror) => Some(SyncMutation::Remove { path: mirror }),
            None => None,
        },
    }
}

} // verus!
