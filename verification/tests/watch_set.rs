use filetransfer::entry::{EntryKind, FileEntry};
use filetransfer::path::AbsPath;
use filetransfer::watcher::{propagate, ChangeEvent, SyncMutation, WatchSet, WatcherError};

fn path(names: &[&str]) -> AbsPath {
    let mut p = AbsPath::root();
    for n in names {
        p = p.join(n);
    }
    p
}

fn file(parent: &AbsPath, name: &str, size: u64) -> FileEntry {
    FileEntry::new(parent, name, EntryKind::File, size, 0, 0o644)
}

#[test]
fn paths_up_to_the_capacity_are_accepted_and_the_next_is_refused() {
    let mut set = WatchSet::new(3);
    assert_eq!(set.capacity(), 3);
    assert_eq!(set.watch(path(&["a"])), Ok(()));
    assert_eq!(set.watch(path(&["b"])), Ok(()));
    assert_eq!(set.watch(path(&["c"])), Ok(()));
    assert_eq!(set.len(), 3);
    assert_eq!(set.watch(path(&["d"])), Err(WatcherError::CapacityExceeded));
    assert_eq!(set.len(), 3);
    assert!(!set.is_watched(&path(&["d"])));
    assert_eq!(set.get(0).unwrap().components, vec!["a"]);
    assert_eq!(set.get(1).unwrap().components, vec!["b"]);
    assert_eq!(set.get(2).unwrap().components, vec!["c"]);
    assert!(set.get(3).is_none());
}

#[test]
fn a_set_without_room_accepts_nothing() {
    let mut set = WatchSet::new(0);
    assert_eq!(set.watch(path(&["a"])), Err(WatcherError::CapacityExceeded));
    assert_eq!(set.len(), 0);
}

#[test]
fn a_watched_path_is_accepted_again_and_held_once() {
    let mut set = WatchSet::new(1);
    assert_eq!(set.watch(path(&["a"])), Ok(()));
    assert_eq!(set.watch(path(&["a"])), Ok(()));
    assert_eq!(set.len(), 1);
}

#[test]
fn unwatch_takes_the_path_out_and_makes_room() {
    let mut set = WatchSet::new(2);
    set.watch(path(&["a"])).unwrap();
    set.watch(path(&["b"])).unwrap();
    assert_eq!(set.unwatch(&path(&["a"])), Ok(()));
    assert_eq!(set.len(), 1);
    assert!(!set.is_watched(&path(&["a"])));
    assert!(set.is_watched(&path(&["b"])));
    assert_eq!(set.unwatch(&path(&["a"])), Err(WatcherError::NotWatched));
    assert_eq!(set.len(), 1);
    assert_eq!(set.watch(path(&["c"])), Ok(()));
    assert_eq!(set.get(0).unwrap().components, vec!["b"]);
    assert_eq!(set.get(1).unwrap().components, vec!["c"]);
}

#[test]
fn a_change_below_the_local_directory_is_mirrored() {
    let local = path(&["home", "u"]);
    let remote = path(&["srv"]);
    let created = ChangeEvent::Created(file(&path(&["home", "u", "docs"]), "a.txt", 10));
    match propagate(&created, true, &local, &remote) {
        Some(SyncMutation::Upload { entry, dest_dir }) => {
            assert_eq!(entry.name, "a.txt");
            assert_eq!(entry.size, 10);
            assert_eq!(dest_dir.components, vec!["srv", "docs"]);
        }
        other => panic!("unexpected {:?}", other),
    }
    let modified = ChangeEvent::Modified(file(&local, "b.txt", 1));
    match propagate(&modified, true, &local, &remote) {
        Some(SyncMutation::Upload { entry, dest_dir }) => {
            assert_eq!(entry.name, "b.txt");
            assert_eq!(dest_dir.components, vec!["srv"]);
        }
        other => panic!("unexpected {:?}", other),
    }
    let removed = ChangeEvent::Removed(path(&["home", "u", "old", "c.txt"]));
    match propagate(&removed, true, &local, &remote) {
        Some(SyncMutation::Remove { path }) => {
            assert_eq!(path.components, vec!["srv", "old", "c.txt"]);
        }
        other => panic!("unexpected {:?}", other),
    }
}

#[test]
fn a_change_elsewhere_or_out_of_step_sets_off_nothing() {
    let local = path(&["home", "u"]);
    let remote = path(&["srv"]);
    let inside = ChangeEvent::Created(file(&local, "a.txt", 10));
    assert!(propagate(&inside, false, &local, &remote).is_none());
    let outside = ChangeEvent::Created(file(&path(&["tmp"]), "a.txt", 10));
    assert!(propagate(&outside, true, &local, &remote).is_none());
    let the_directory_itself = ChangeEvent::Removed(path(&["home", "u"]));
    assert!(propagate(&the_directory_itself, true, &local, &remote).is_none());
    let above = ChangeEvent::Removed(path(&["home"]));
    assert!(propagate(&above, true, &local, &remote).is_none());
}

#[test]
fn init_tells_whether_anything_can_be_watched() {
    let set = WatchSet::init(Some(4)).unwrap();
    assert_eq!(set.capacity(), 4);
    assert_eq!(set.len(), 0);
    assert_eq!(WatchSet::init(None).unwrap_err(), WatcherError::Unavailable);
}
