use filetransfer::entry::{EntryKind, FileEntry};
use filetransfer::path::AbsPath;
use filetransfer::transfer::model::{
    Decision, Direction, EntryStatus, FailureReason, Outcome, TransferAction, TransferKind,
};
use filetransfer::transfer::queue::{percent_of, TransferQueue};

fn dir(names: &[&str]) -> AbsPath {
    let mut p = AbsPath::root();
    for n in names {
        p = p.join(n);
    }
    p
}

fn file(parent: &AbsPath, name: &str, size: u64) -> FileEntry {
    FileEntry::new(parent, name, EntryKind::File, size, 1_700_000_000, 0o644)
}

fn folder(parent: &AbsPath, name: &str) -> FileEntry {
    FileEntry::new(parent, name, EntryKind::Directory, 4096, 1_700_000_000, 0o755)
}

#[test]
fn upload_of_a_new_file_runs_to_done() {
    let local = dir(&["home", "u", "docs"]);
    let remote = dir(&["srv"]);
    let mut q = TransferQueue::new();
    q.enqueue(&vec![file(&local, "a.txt", 10)], Direction::Upload, &remote, &vec![]);
    assert_eq!(q.len(), 1);
    let e = q.get(0).unwrap();
    assert_eq!(e.status, EntryStatus::Pending);
    assert_eq!(e.kind, TransferKind::File);
    assert_eq!(e.source_path.components, vec!["home", "u", "docs", "a.txt"]);
    assert_eq!(e.dest_path.components, vec!["srv", "a.txt"]);
    assert_eq!(q.states().bytes_total, 10);
    assert_eq!(q.states().file_total, 1);

    assert_eq!(q.start_next(1_000), TransferAction::CopyFile(0));
    assert_eq!(q.get(0).unwrap().status, EntryStatus::InProgress);
    assert_eq!(q.states().active_entry, Some(0));
    assert_eq!(q.states().started_at, Some(1_000));
    assert!(q.report_progress(4));
    assert_eq!(q.states().bytes_done, 4);
    assert_eq!(q.overall_percent(), 40);
    assert_eq!(q.active_percent(), Some(40));
    q.finish(Outcome::Completed(10));
    assert_eq!(q.get(0).unwrap().status, EntryStatus::Done);
    assert_eq!(q.states().bytes_done, 10);
    assert_eq!(q.states().bytes_total, 10);
    assert_eq!(q.states().file_done, 1);
    assert_eq!(q.states().active_entry, None);
    assert!(q.is_complete());
    assert_eq!(q.start_next(2_000), TransferAction::Complete);
    assert_eq!(q.states().started_at, Some(1_000));
}

#[test]
fn existing_destination_is_a_conflict_and_skip_moves_nothing() {
    let local = dir(&["home", "u", "docs"]);
    let remote = dir(&["srv"]);
    let mut q = TransferQueue::new();
    q.enqueue(
        &vec![file(&local, "a.txt", 10)],
        Direction::Upload,
        &remote,
        &vec![file(&remote, "a.txt", 3)],
    );
    assert_eq!(q.get(0).unwrap().status, EntryStatus::Conflict);
    assert_eq!(q.start_next(0), TransferAction::AwaitDecision(0));
    assert_eq!(q.resolve(Decision::SkipThis), 1);
    assert_eq!(q.get(0).unwrap().status, EntryStatus::Skipped);
    assert_eq!(q.start_next(0), TransferAction::Complete);
    assert_eq!(q.states().bytes_done, 0);
    assert_eq!(q.states().bytes_total, 0);
    assert_eq!(q.states().file_total, 0);
    assert_eq!(q.overall_percent(), 100);
}

#[test]
fn existing_destination_replaced_runs_to_done() {
    let local = dir(&["home", "u", "docs"]);
    let remote = dir(&["srv"]);
    let mut q = TransferQueue::new();
    q.enqueue(
        &vec![file(&local, "a.txt", 10)],
        Direction::Upload,
        &remote,
        &vec![file(&remote, "a.txt", 3)],
    );
    assert_eq!(q.resolve(Decision::ReplaceThis), 1);
    assert_eq!(q.get(0).unwrap().status, EntryStatus::Pending);
    assert_eq!(q.start_next(0), TransferAction::CopyFile(0));
    q.finish(Outcome::Completed(10));
    assert_eq!(q.get(0).unwrap().status, EntryStatus::Done);
    assert_eq!(q.get(0).unwrap().size_hint, 10);
    assert_eq!(q.states().bytes_done, 10);
}

#[test]
fn replace_all_and_skip_all_settle_every_conflict() {
    let local = dir(&["l"]);
    let remote = dir(&["r"]);
    let existing = vec![file(&remote, "a", 1), file(&remote, "c", 1)];
    let selection = vec![file(&local, "a", 5), file(&local, "b", 6), file(&local, "c", 7)];
    let mut q = TransferQueue::new();
    q.enqueue(&selection, Direction::Upload, &remote, &existing);
    assert_eq!(q.get(0).unwrap().status, EntryStatus::Conflict);
    assert_eq!(q.get(1).unwrap().status, EntryStatus::Pending);
    assert_eq!(q.get(2).unwrap().status, EntryStatus::Conflict);
    assert_eq!(q.states().bytes_total, 18);
    assert_eq!(q.resolve(Decision::ReplaceAll), 2);
    for i in 0..3 {
        assert_eq!(q.get(i).unwrap().status, EntryStatus::Pending);
    }
    assert_eq!(q.states().bytes_total, 18);

    let mut q = TransferQueue::new();
    q.enqueue(&selection, Direction::Upload, &remote, &existing);
    assert_eq!(q.resolve(Decision::SkipAll), 2);
    assert_eq!(q.get(0).unwrap().status, EntryStatus::Skipped);
    assert_eq!(q.get(1).unwrap().status, EntryStatus::Pending);
    assert_eq!(q.get(2).unwrap().status, EntryStatus::Skipped);
    assert_eq!(q.states().bytes_total, 6);
    assert_eq!(q.states().file_total, 1);
    assert_eq!(q.start_next(0), TransferAction::CopyFile(1));
    q.finish(Outcome::Completed(6));
    assert_eq!(q.start_next(0), TransferAction::Complete);
    assert_eq!(q.states().bytes_done, 6);
    assert_eq!(q.get(0).unwrap().transferred, 0);
    assert_eq!(q.get(2).unwrap().transferred, 0);
}

#[test]
fn abort_mid_queue_leaves_the_rest_untouched() {
    let local = dir(&["l"]);
    let remote = dir(&["r"]);
    let existing = vec![file(&remote, "c", 1)];
    let selection = vec![file(&local, "a", 5), file(&local, "b", 6), file(&local, "c", 7)];
    let mut q = TransferQueue::new();
    q.enqueue(&selection, Direction::Upload, &remote, &existing);
    assert_eq!(q.start_next(0), TransferAction::CopyFile(0));
    assert!(q.report_progress(2));
    q.abort();
    assert!(q.is_aborted());
    assert!(!q.report_progress(3));
    q.finish(Outcome::Failed(FailureReason::Aborted));
    assert_eq!(q.get(0).unwrap().status, EntryStatus::Failed(FailureReason::Aborted));
    assert_eq!(q.get(1).unwrap().status, EntryStatus::Pending);
    assert_eq!(q.get(2).unwrap().status, EntryStatus::Skipped);
    assert_eq!(q.start_next(0), TransferAction::Halted);
    assert_eq!(q.get(1).unwrap().status, EntryStatus::Pending);
    assert!(!q.is_complete());
    assert_eq!(q.states().bytes_done, 3);
    assert_eq!(q.states().bytes_total, 9);
}

#[test]
fn lost_connection_fails_the_entry_and_pauses_the_queue() {
    let local = dir(&["l"]);
    let remote = dir(&["r"]);
    let selection = vec![file(&local, "a", 5), file(&local, "b", 6)];
    let mut q = TransferQueue::new();
    q.enqueue(&selection, Direction::Download, &remote, &vec![]);
    assert_eq!(q.start_next(0), TransferAction::CopyFile(0));
    q.report_progress(1);
    q.finish(Outcome::Failed(FailureReason::ConnectionLost));
    assert_eq!(q.get(0).unwrap().status, EntryStatus::Failed(FailureReason::ConnectionLost));
    assert!(q.is_paused());
    assert_eq!(q.start_next(0), TransferAction::Paused);
    assert_eq!(q.get(1).unwrap().status, EntryStatus::Pending);
    q.resume();
    assert!(!q.is_paused());
    assert_eq!(q.start_next(0), TransferAction::CopyFile(1));
}

#[test]
fn a_failed_entry_does_not_stop_the_queue() {
    let local = dir(&["l"]);
    let remote = dir(&["r"]);
    let selection = vec![file(&local, "a", 5), file(&local, "b", 6)];
    let mut q = TransferQueue::new();
    q.enqueue(&selection, Direction::Upload, &remote, &vec![]);
    q.start_next(0);
    q.report_progress(2);
    q.finish(Outcome::Failed(FailureReason::Remote));
    assert!(!q.is_paused());
    assert_eq!(q.states().bytes_total, 8);
    assert_eq!(q.states().bytes_done, 2);
    assert_eq!(q.states().file_total, 1);
    assert_eq!(q.start_next(0), TransferAction::CopyFile(1));
    q.finish(Outcome::Completed(6));
    assert!(q.is_complete());
    assert_eq!(q.states().bytes_total, 8);
    assert_eq!(q.states().bytes_done, 8);
    assert_eq!(q.states().file_done, 1);
}

#[test]
fn a_directory_expands_when_its_turn_comes() {
    let local = dir(&["l"]);
    let remote = dir(&["r"]);
    let selection = vec![folder(&local, "d"), file(&local, "z", 1)];
    let mut q = TransferQueue::new();
    q.enqueue(&selection, Direction::Upload, &remote, &vec![]);
    assert_eq!(q.get(0).unwrap().kind, TransferKind::Directory);
    assert_eq!(q.get(0).unwrap().size_hint, 0);
    assert_eq!(q.states().bytes_total, 1);
    assert_eq!(q.start_next(0), TransferAction::ExpandDirectory(0));
    let inside = local.join("d");
    q.expand(&vec![file(&inside, "x", 3), folder(&inside, "sub")]);
    assert_eq!(q.len(), 4);
    assert_eq!(q.get(0).unwrap().status, EntryStatus::Done);
    assert_eq!(q.get(2).unwrap().dest_path.components, vec!["r", "d", "x"]);
    assert_eq!(q.get(2).unwrap().source_path.components, vec!["l", "d", "x"]);
    assert_eq!(q.get(2).unwrap().status, EntryStatus::Pending);
    assert_eq!(q.get(3).unwrap().kind, TransferKind::Directory);
    assert_eq!(q.states().bytes_total, 4);
    assert_eq!(q.states().file_total, 4);
    assert_eq!(q.states().file_done, 1);
    assert_eq!(q.start_next(0), TransferAction::CopyFile(1));
}

#[test]
fn a_file_larger_than_announced_grows_the_total() {
    let local = dir(&["l"]);
    let remote = dir(&["r"]);
    let mut q = TransferQueue::new();
    q.enqueue(&vec![file(&local, "a", 5)], Direction::Upload, &remote, &vec![]);
    q.start_next(0);
    q.report_progress(8);
    assert_eq!(q.states().bytes_total, 8);
    assert_eq!(q.states().bytes_done, 8);
    q.finish(Outcome::Completed(7));
    assert_eq!(q.states().bytes_total, 7);
    assert_eq!(q.states().bytes_done, 7);
}

#[test]
fn clear_starts_afresh_unless_an_entry_is_in_flight() {
    let local = dir(&["l"]);
    let remote = dir(&["r"]);
    let mut q = TransferQueue::new();
    q.enqueue(&vec![file(&local, "a", 5)], Direction::Upload, &remote, &vec![]);
    q.start_next(0);
    q.clear();
    assert_eq!(q.len(), 1);
    q.finish(Outcome::Completed(5));
    q.abort();
    q.clear();
    assert_eq!(q.len(), 0);
    assert!(!q.is_aborted());
    assert_eq!(q.states().bytes_total, 0);
    assert_eq!(q.states().started_at, None);
}

#[test]
fn percent_rounds_down() {
    assert_eq!(percent_of(0, 0), 100);
    assert_eq!(percent_of(0, 7), 0);
    assert_eq!(percent_of(1, 3), 33);
    assert_eq!(percent_of(2, 3), 66);
    assert_eq!(percent_of(3, 3), 100);
    assert_eq!(percent_of(199, 200), 99);
    assert_eq!(percent_of(u128::MAX - 1, u128::MAX), 99);
    assert_eq!(percent_of(u128::MAX, u128::MAX), 100);
}
