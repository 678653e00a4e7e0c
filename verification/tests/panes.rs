use filetransfer::browser::{Browser, Side, SyncToggle};
use filetransfer::entry::{EntryKind, FileEntry};
use filetransfer::pane::{BrowseError, Pane};
use filetransfer::path::AbsPath;
use filetransfer::sorting::{precedes, sort_entries, FileSorting};

fn path(names: &[&str]) -> AbsPath {
    let mut p = AbsPath::root();
    for n in names {
        p = p.join(n);
    }
    p
}

fn file(parent: &AbsPath, name: &str, size: u64, mtime: u64) -> FileEntry {
    FileEntry::new(parent, name, EntryKind::File, size, mtime, 0o644)
}

fn folder(parent: &AbsPath, name: &str) -> FileEntry {
    FileEntry::new(parent, name, EntryKind::Directory, 0, 0, 0o755)
}

fn names(entries: &[FileEntry]) -> Vec<String> {
    entries.iter().map(|e| e.name.clone()).collect()
}

#[test]
fn an_entry_knows_its_path_and_kind() {
    let e = FileEntry::new(&path(&["home"]), "a.txt", EntryKind::File, 10, 5, 0o600);
    assert_eq!(e.name, "a.txt");
    assert_eq!(e.absolute_path.components, vec!["home", "a.txt"]);
    assert_eq!(e.size, 10);
    assert_eq!(e.modified_time, 5);
    assert_eq!(e.permissions, 0o600);
    assert!(!e.is_dir());
    assert!(!e.is_hidden());
    assert!(folder(&path(&[]), "d").is_dir());
    assert!(file(&path(&[]), ".profile", 1, 1).is_hidden());
    let link = FileEntry::new(&path(&[]), "l", EntryKind::Symlink("a.txt".to_string()), 0, 0, 0);
    assert!(!link.is_dir());
    let copy = link.clone();
    assert!(matches!(copy.kind, EntryKind::Symlink(ref t) if t == "a.txt"));
}

#[test]
fn sorting_by_name_follows_the_bytes_of_the_names() {
    let d = path(&["d"]);
    let listing = vec![
        file(&d, "b", 1, 1),
        file(&d, "a", 1, 1),
        file(&d, "ab", 1, 1),
        file(&d, "B", 1, 1),
        file(&d, "", 1, 1),
        file(&d, "é", 1, 1),
    ];
    let sorted = sort_entries(listing, FileSorting::Name);
    assert_eq!(names(&sorted), vec!["", "B", "a", "ab", "b", "é"]);
}

#[test]
fn sorting_by_size_puts_the_largest_first_and_keeps_ties_in_order() {
    let d = path(&["d"]);
    let listing = vec![
        file(&d, "small", 1, 0),
        file(&d, "big", 100, 0),
        file(&d, "mid1", 50, 0),
        file(&d, "mid2", 50, 0),
    ];
    let sorted = sort_entries(listing, FileSorting::Size);
    assert_eq!(names(&sorted), vec!["big", "mid1", "mid2", "small"]);
}

#[test]
fn sorting_by_time_puts_the_newest_first() {
    let d = path(&["d"]);
    let listing = vec![file(&d, "old", 1, 10), file(&d, "new", 1, 30), file(&d, "mid", 1, 20)];
    let sorted = sort_entries(listing, FileSorting::ModifyTime);
    assert_eq!(names(&sorted), vec!["new", "mid", "old"]);
}

#[test]
fn precedes_orders_two_entries() {
    let d = path(&["d"]);
    let a = file(&d, "a", 1, 9);
    let b = file(&d, "b", 2, 3);
    assert!(precedes(&a, &b, FileSorting::Name));
    assert!(!precedes(&b, &a, FileSorting::Name));
    assert!(precedes(&a, &a, FileSorting::Name));
    assert!(precedes(&b, &a, FileSorting::Size));
    assert!(!precedes(&a, &b, FileSorting::Size));
    assert!(precedes(&a, &b, FileSorting::ModifyTime));
    assert!(precedes(&file(&d, "ab", 0, 0), &file(&d, "abc", 0, 0), FileSorting::Name));
    assert!(!precedes(&file(&d, "abc", 0, 0), &file(&d, "ab", 0, 0), FileSorting::Name));
}

#[test]
fn a_new_pane_shows_nothing() {
    let pane = Pane::new(path(&["home"]), FileSorting::Name, false);
    assert_eq!(pane.root_path().components, vec!["home"]);
    assert_eq!(pane.len(), 0);
    assert!(!pane.is_listed());
    assert!(pane.home().is_none());
    assert!(pane.selected().is_none());
    assert_eq!(pane.cursor(), 0);
    assert_eq!(pane.sort_order(), FileSorting::Name);
    assert!(!pane.show_hidden());
    assert!(pane.relative().is_none());
}

#[test]
fn a_listing_is_shown_in_the_panes_order() {
    let home = path(&["home"]);
    let mut pane = Pane::new(home.clone(), FileSorting::Name, false);
    assert_eq!(pane.relist(Ok(vec![file(&home, "b", 1, 1), file(&home, "a", 2, 2)])), Ok(()));
    assert_eq!(names(pane.entries()), vec!["a", "b"]);
    assert!(pane.is_listed());
    assert_eq!(pane.home().unwrap().components, vec!["home"]);
    assert_eq!(pane.selected().unwrap().name, "a");
    assert_eq!(pane.get(1).unwrap().name, "b");
    assert!(pane.get(2).is_none());
    assert_eq!(pane.relative().unwrap(), Vec::<String>::new());
}

#[test]
fn a_failed_listing_leaves_the_pane_as_it_was() {
    let home = path(&["home"]);
    let mut pane = Pane::new(home.clone(), FileSorting::Size, true);
    pane.relist(Ok(vec![file(&home, "a", 1, 1), file(&home, "b", 2, 2)])).unwrap();
    pane.set_cursor(1);
    let before = format!("{:?}", pane);
    assert_eq!(pane.relist(Err(BrowseError::Remote)), Err(BrowseError::Remote));
    assert_eq!(format!("{:?}", pane), before);
    assert_eq!(pane.relist(Err(BrowseError::Io)), Err(BrowseError::Io));
    assert_eq!(format!("{:?}", pane), before);
}

#[test]
fn the_cursor_stays_on_an_entry() {
    let home = path(&["home"]);
    let mut pane = Pane::new(home.clone(), FileSorting::Name, false);
    pane.set_cursor(5);
    assert_eq!(pane.cursor(), 0);
    pane.relist(Ok(vec![file(&home, "a", 1, 1), file(&home, "b", 1, 1), file(&home, "c", 1, 1)]))
        .unwrap();
    pane.set_cursor(5);
    assert_eq!(pane.cursor(), 2);
    pane.set_cursor(1);
    assert_eq!(pane.selected().unwrap().name, "b");
    pane.relist(Ok(vec![file(&home, "a", 1, 1)])).unwrap();
    assert_eq!(pane.cursor(), 0);
    pane.relist(Ok(vec![])).unwrap();
    assert_eq!(pane.cursor(), 0);
    assert!(pane.selected().is_none());
}

#[test]
fn hidden_entries_are_shown_on_request_only() {
    let home = path(&["home"]);
    let mut pane = Pane::new(home.clone(), FileSorting::Name, false);
    pane.relist(Ok(vec![file(&home, ".a", 1, 1), file(&home, "b", 1, 1), file(&home, ".c", 1, 1)]))
        .unwrap();
    assert_eq!(pane.len(), 3);
    assert_eq!(names(&pane.visible()), vec!["b"]);
    pane.toggle_hidden();
    assert!(pane.show_hidden());
    assert_eq!(names(&pane.visible()), vec![".a", ".c", "b"]);
}

#[test]
fn changing_the_order_rearranges_the_entries() {
    let home = path(&["home"]);
    let mut pane = Pane::new(home.clone(), FileSorting::Name, false);
    pane.relist(Ok(vec![file(&home, "a", 1, 5), file(&home, "b", 9, 1)])).unwrap();
    assert_eq!(names(pane.entries()), vec!["a", "b"]);
    pane.set_sorting(FileSorting::Size);
    assert_eq!(pane.sort_order(), FileSorting::Size);
    assert_eq!(names(pane.entries()), vec!["b", "a"]);
    pane.set_sorting(FileSorting::ModifyTime);
    assert_eq!(names(pane.entries()), vec!["a", "b"]);
}

#[test]
fn entering_needs_a_directory() {
    let home = path(&["home"]);
    let mut b = Browser::new(home.clone(), path(&["srv"]), FileSorting::Name, false);
    b.list(Side::Local, Ok(vec![file(&home, "a.txt", 1, 1), folder(&home, "docs")])).unwrap();
    assert_eq!(b.target_of(Side::Local, 0).unwrap_err(), BrowseError::NotADirectory);
    assert_eq!(b.target_of(Side::Local, 1).unwrap().components, vec!["home", "docs"]);
    assert_eq!(b.target_of(Side::Local, 2).unwrap_err(), BrowseError::NoSuchEntry);
    assert_eq!(b.target_of(Side::Remote, 0).unwrap_err(), BrowseError::NoSuchEntry);
}

#[test]
fn a_directory_that_cannot_be_listed_is_not_entered() {
    let home = path(&["home"]);
    let mut b = Browser::new(home.clone(), path(&["srv"]), FileSorting::Name, false);
    b.list(Side::Local, Ok(vec![folder(&home, "docs")])).unwrap();
    let before = format!("{:?}", b);
    assert_eq!(
        b.enter_directory(Side::Local, path(&["home", "docs"]), Err(BrowseError::Io)),
        Err(BrowseError::Io)
    );
    assert_eq!(format!("{:?}", b), before);
    assert_eq!(b.list(Side::Remote, Err(BrowseError::Remote)), Err(BrowseError::Remote));
    assert_eq!(format!("{:?}", b), before);
    let docs = path(&["home", "docs"]);
    b.enter_directory(Side::Local, docs.clone(), Ok(vec![file(&docs, "x", 1, 1)])).unwrap();
    assert_eq!(b.local().root_path().components, vec!["home", "docs"]);
    assert_eq!(names(b.local().entries()), vec!["x"]);
    assert_eq!(b.local().home().unwrap().components, vec!["home"]);
    assert_eq!(b.local().relative().unwrap(), vec!["docs"]);
    assert_eq!(b.remote().len(), 0);
}

#[test]
fn the_mirror_lies_as_far_below_the_other_home() {
    let mut b = Browser::new(path(&["home", "u"]), path(&["srv"]), FileSorting::Name, false);
    assert!(b.mirror(Side::Local, &path(&["home", "u", "docs"])).is_none());
    b.list(Side::Local, Ok(vec![])).unwrap();
    b.list(Side::Remote, Ok(vec![])).unwrap();
    assert_eq!(
        b.mirror(Side::Local, &path(&["home", "u", "docs"])).unwrap().components,
        vec!["srv", "docs"]
    );
    assert_eq!(
        b.mirror(Side::Remote, &path(&["srv", "a", "b"])).unwrap().components,
        vec!["home", "u", "a", "b"]
    );
    assert!(b.mirror(Side::Local, &path(&["etc"])).is_none());
}

#[test]
fn sync_browsing_needs_both_panes_listed() {
    let mut b = Browser::new(path(&["home"]), path(&["srv"]), FileSorting::Name, false);
    assert!(matches!(b.toggle_sync_browsing(), SyncToggle::Unavailable));
    assert!(!b.sync_browsing());
    b.list(Side::Local, Ok(vec![])).unwrap();
    assert!(matches!(b.toggle_sync_browsing(), SyncToggle::Unavailable));
    assert!(!b.sync_browsing());
    b.list(Side::Remote, Ok(vec![])).unwrap();
    assert!(matches!(b.toggle_sync_browsing(), SyncToggle::Enabled));
    assert!(b.sync_browsing());
    assert!(matches!(b.toggle_sync_browsing(), SyncToggle::Disabled));
    assert!(!b.sync_browsing());
}

#[test]
fn sync_browsing_reports_panes_that_stand_apart() {
    let home = path(&["home"]);
    let mut b = Browser::new(home.clone(), path(&["srv"]), FileSorting::Name, false);
    b.list(Side::Local, Ok(vec![folder(&home, "docs")])).unwrap();
    b.list(Side::Remote, Ok(vec![])).unwrap();
    b.enter_directory(Side::Local, path(&["home", "docs"]), Ok(vec![])).unwrap();
    match b.toggle_sync_browsing() {
        SyncToggle::Diverged { target } => assert_eq!(target.components, vec!["srv", "docs"]),
        other => panic!("unexpected {:?}", other),
    }
    assert!(b.sync_browsing());
    b.toggle_sync_browsing();
    b.enter_directory(Side::Remote, path(&["srv", "docs"]), Ok(vec![])).unwrap();
    assert!(matches!(b.toggle_sync_browsing(), SyncToggle::Enabled));
}

#[test]
fn sync_browsing_is_not_to_be_had_outside_the_local_home() {
    let mut b = Browser::new(path(&["home", "u"]), path(&["srv"]), FileSorting::Name, false);
    b.list(Side::Local, Ok(vec![])).unwrap();
    b.list(Side::Remote, Ok(vec![])).unwrap();
    b.enter_directory(Side::Local, path(&["home"]), Ok(vec![])).unwrap();
    assert!(matches!(b.toggle_sync_browsing(), SyncToggle::Unavailable));
    assert!(!b.sync_browsing());
}

#[test]
fn the_found_pane_opens_and_closes() {
    let home = path(&["home"]);
    let mut b = Browser::new(home.clone(), path(&["srv"]), FileSorting::Name, false);
    assert!(b.found().is_none());
    b.open_found(Side::Local, vec![file(&home, "z", 1, 1), file(&home, "y", 1, 1)]);
    let found = b.found().unwrap();
    assert_eq!(found.side, Side::Local);
    assert_eq!(names(found.pane.entries()), vec!["y", "z"]);
    assert_eq!(found.pane.root_path().components, vec!["home"]);
    b.close_found();
    assert!(b.found().is_none());
}

#[test]
fn pane_settings_apply_to_one_side() {
    let home = path(&["home"]);
    let mut b = Browser::new(home.clone(), path(&["srv"]), FileSorting::Name, false);
    b.list(Side::Local, Ok(vec![file(&home, "a", 1, 1), file(&home, "b", 2, 2)])).unwrap();
    b.toggle_hidden(Side::Remote);
    assert!(b.remote().show_hidden());
    assert!(!b.local().show_hidden());
    b.set_sorting(Side::Local, FileSorting::Size);
    assert_eq!(names(b.local().entries()), vec!["b", "a"]);
    assert_eq!(b.remote().sort_order(), FileSorting::Name);
    b.set_cursor(Side::Local, 7);
    assert_eq!(b.pane(Side::Local).cursor(), 1);
    assert_eq!(b.pane(Side::Remote).cursor(), 0);
    assert_eq!(Side::Local.opposite(), Side::Remote);
    assert_eq!(Side::Remote.opposite(), Side::Local);
}
