use filetransfer::activity::effect::{Effect, ListPurpose, PairOp, PathOp, TerminalOp};
use filetransfer::activity::event::{Event, ListingFailure};
use filetransfer::activity::model::ExitReason;
use filetransfer::browser::Side;
use filetransfer::connection::ConnectionState;
use filetransfer::entry::{EntryKind, FileEntry};
use filetransfer::log::LogLevel;
use filetransfer::message::{Id, Msg, PendingActionMsg, TransferMsg, UiMsg};
use filetransfer::pane::BrowseError;
use filetransfer::path::AbsPath;
use filetransfer::pending::PendingStep;
use filetransfer::remote::{stream_failure, RemoteErrorKind};
use filetransfer::sorting::FileSorting;
use filetransfer::transfer::model::{
    Direction, EntryStatus, FailureReason, Outcome, TransferKind,
};
use filetransfer::watcher::ChangeEvent;
use filetransfer::FileTransferActivity;

fn path(names: &[&str]) -> AbsPath {
    let mut p = AbsPath::root();
    for n in names {
        p = p.join(n);
    }
    p
}

fn file(parent: &AbsPath, name: &str, size: u64) -> FileEntry {
    FileEntry::new(parent, name, EntryKind::File, size, 0, 0o644)
}

fn folder(parent: &AbsPath, name: &str) -> FileEntry {
    FileEntry::new(parent, name, EntryKind::Directory, 0, 0, 0o755)
}

fn show(effect: &Effect) -> String {
    match effect {
        Effect::Terminal(op) => format!("{:?}", op),
        Effect::Connect => "Connect".to_string(),
        Effect::Disconnect => "Disconnect".to_string(),
        Effect::List { side, path, purpose } => {
            format!("List {:?} {} {:?}", side, path.render(), purpose)
        }
        Effect::OnPath { op, side, path } => format!("{:?} {:?} {}", op, side, path.render()),
        Effect::OnPair { op, side, from, to } => {
            format!("{:?} {:?} {} {}", op, side, from.render(), to.render())
        }
        Effect::Exec { side, command } => format!("Exec {:?} {}", side, command),
        Effect::Open { side, path, with, as_text } => {
            format!("Open {:?} {} {:?} {}", side, path.render(), with, as_text)
        }
        Effect::Transfer { index, kind, direction, source, dest } => format!(
            "Transfer {} {:?} {:?} {} {}",
            index,
            kind,
            direction,
            source.render(),
            dest.render()
        ),
    }
}

fn shown(effects: &[Effect]) -> Vec<String> {
    effects.iter().map(show).collect()
}

fn listing(side: Side, path: AbsPath, purpose: ListPurpose, entries: Vec<FileEntry>) -> Event {
    Event::Listing { side, path, purpose, result: Ok(entries) }
}

fn failed_listing(side: Side, path: AbsPath, purpose: ListPurpose, message: &str) -> Event {
    Event::Listing {
        side,
        path,
        purpose,
        result: Err(ListingFailure {
            kind: if side == Side::Local { BrowseError::Io } else { BrowseError::Remote },
            message: message.to_string(),
        }),
    }
}

fn local() -> AbsPath {
    path(&["home", "u", "docs"])
}

fn remote() -> AbsPath {
    path(&["srv"])
}

/// An activity that is created and connected, with both panes listed.
fn ready(local_entries: Vec<FileEntry>, remote_entries: Vec<FileEntry>) -> FileTransferActivity {
    let mut a =
        FileTransferActivity::new(local(), remote(), FileSorting::Name, false, None, Some(2));
    a.handle_at(Event::Create { startup_error: None }, 1);
    a.handle_at(listing(Side::Local, local(), ListPurpose::Refresh, local_entries), 2);
    a.on_draw(false);
    a.handle_at(Event::Connected { result: Ok(()) }, 3);
    a.handle_at(listing(Side::Remote, remote(), ListPurpose::Refresh, remote_entries), 4);
    a.take_redraw();
    a
}

fn tick(a: &mut FileTransferActivity, now: i64) -> Vec<String> {
    shown(&a.handle_at(Event::Tick, now))
}

fn send(a: &mut FileTransferActivity, msg: TransferMsg) -> Vec<String> {
    shown(&a.handle_at(Event::Message(Msg::Transfer(msg)), 100))
}

fn ui(a: &mut FileTransferActivity, msg: UiMsg) -> Vec<String> {
    shown(&a.handle_at(Event::Message(Msg::Ui(msg)), 100))
}

fn answer(a: &mut FileTransferActivity, msg: PendingActionMsg) -> Vec<String> {
    shown(&a.handle_at(Event::Message(Msg::PendingAction(msg)), 100))
}

fn names(entries: &[FileEntry]) -> Vec<String> {
    entries.iter().map(|e| e.name.clone()).collect()
}

#[test]
fn a_new_activity_is_idle() {
    let a = FileTransferActivity::new(local(), remote(), FileSorting::Size, true, None, Some(0));
    assert!(a.will_umount().is_none());
    assert_eq!(a.local().root_path().render(), "/home/u/docs");
    assert_eq!(a.remote().root_path().render(), "/srv");
    assert_eq!(a.local().sort_order(), FileSorting::Size);
    assert!(a.remote().show_hidden());
    assert!(a.found().is_none());
    assert_eq!(a.focus(), Side::Local);
    assert_eq!(a.log().len(), 0);
    assert_eq!(a.transfer().len(), 0);
    assert_eq!(a.pending().len(), 0);
    assert!(matches!(a.connection().state(), ConnectionState::Disconnected));
    assert_eq!(a.watcher().unwrap().capacity(), 0);
    assert_eq!(a.sync_backlog(), 0);
    assert!(!a.is_searching());
    assert!(!a.is_mounted(Id::FatalPopup));
    assert!(!a.browser().sync_browsing());
    let b = FileTransferActivity::new(local(), remote(), FileSorting::Name, false, None, Some(5));
    assert_eq!(b.watcher().unwrap().capacity(), 5);
    assert_eq!(b.watcher().unwrap().len(), 0);
}

#[test]
fn creation_prepares_the_terminal_and_lists_the_local_directory() {
    let mut a = FileTransferActivity::new(local(), remote(), FileSorting::Name, false, None, Some(2));
    let effects = a.on_create(None);
    assert_eq!(
        shown(&effects),
        vec![
            "ClearScreen",
            "EnableRawMode",
            "List Local /home/u/docs Refresh",
            "SetupTextEditor",
            "InitView"
        ]
    );
    assert!(!a.is_mounted(Id::FatalPopup));
    assert_eq!(a.log().len(), 0);
}

#[test]
fn an_error_from_before_creation_is_fatal() {
    let mut a = FileTransferActivity::new(local(), remote(), FileSorting::Name, false, None, Some(2));
    let effects = a.on_create(Some("bad parameters".to_string()));
    assert_eq!(effects.len(), 5);
    assert!(a.is_mounted(Id::FatalPopup));
    assert_eq!(a.log().len(), 1);
    assert_eq!(a.log().get(0).unwrap().level, LogLevel::Error);
    assert_eq!(a.log().get(0).unwrap().msg, "bad parameters");
    assert!(a.log().get(0).unwrap().time > 1_600_000_000_000);
    // Behind the fatal popup no connection is attempted.
    assert!(a.on_draw(false).is_empty());
    assert!(a.on_draw(false).is_empty());
    // Closing the popup ends the activity.
    assert!(ui(&mut a, UiMsg::CloseFatalPopup).is_empty());
    assert!(!a.is_mounted(Id::FatalPopup));
    assert_eq!(a.will_umount(), Some(&ExitReason::Disconnect));
}

#[test]
fn a_draw_before_creation_does_nothing() {
    let mut a = FileTransferActivity::new(local(), remote(), FileSorting::Name, false, None, Some(2));
    assert!(a.on_draw(false).is_empty());
    assert!(matches!(a.connection().state(), ConnectionState::Disconnected));
}

#[test]
fn a_draw_connects_once_and_the_connection_lists_the_remote_directory() {
    let mut a = FileTransferActivity::new(local(), remote(), FileSorting::Name, false, None, Some(2));
    a.on_create(None);
    assert_eq!(shown(&a.on_draw(false)), vec!["Render", "Connect"]);
    assert!(a.is_mounted(Id::WaitPopup));
    assert!(matches!(a.connection().state(), ConnectionState::Connecting));
    assert!(a.on_draw(false).is_empty());
    let effects = a.handle_at(Event::Connected { result: Ok(()) }, 5);
    assert_eq!(shown(&effects), vec!["List Remote /srv Refresh"]);
    assert!(!a.is_mounted(Id::WaitPopup));
    assert!(a.connection().is_connected());
    assert!(a.on_draw(true).is_empty());
}

#[test]
fn a_failed_connection_is_logged_and_tried_again_on_the_next_draw() {
    let mut a = FileTransferActivity::new(local(), remote(), FileSorting::Name, false, None, Some(2));
    a.on_create(None);
    a.on_draw(false);
    let effects = a.handle_at(Event::Connected { result: Err("refused".to_string()) }, 9);
    assert!(effects.is_empty());
    assert_eq!(a.log().len(), 1);
    assert_eq!(a.log().get(0).unwrap().level, LogLevel::Error);
    assert_eq!(a.log().get(0).unwrap().msg, "refused");
    assert_eq!(a.log().get(0).unwrap().time, 9);
    assert!(matches!(a.connection().state(), ConnectionState::Disconnected));
    assert_eq!(shown(&a.on_draw(false)), vec!["Render", "Connect"]);
    // An answer that nobody waits for is dropped.
    a.handle_at(Event::Connected { result: Ok(()) }, 10);
    assert!(a.handle_at(Event::Connected { result: Err("late".to_string()) }, 11).is_empty());
    assert!(a.connection().is_connected());
    assert_eq!(a.log().len(), 1);
}

#[test]
fn upload_of_a_file_that_is_new_to_the_remote_side() {
    let mut a = ready(vec![file(&local(), "a.txt", 10)], vec![]);
    assert!(send(&mut a, TransferMsg::TransferFile).is_empty());
    assert_eq!(a.transfer().len(), 1);
    assert_eq!(a.transfer().get(0).unwrap().status, EntryStatus::Pending);
    assert_eq!(a.transfer().get(0).unwrap().direction, Direction::Upload);
    assert_eq!(
        tick(&mut a, 50),
        vec!["Transfer 0 File Upload /home/u/docs/a.txt /srv/a.txt"]
    );
    assert_eq!(a.transfer().get(0).unwrap().status, EntryStatus::InProgress);
    assert_eq!(a.transfer().states().started_at, Some(50));
    assert!(a.is_mounted(Id::ProgressBarFull));
    assert!(a.is_mounted(Id::ProgressBarPartial));
    assert!(tick(&mut a, 51).is_empty());
    assert!(a.on_progress(4));
    assert_eq!(a.transfer().states().bytes_done, 4);
    assert!(a.on_progress(10));
    a.handle_at(Event::TransferDone { outcome: Outcome::Completed(10), message: String::new() }, 52);
    assert_eq!(a.transfer().get(0).unwrap().status, EntryStatus::Done);
    assert_eq!(a.transfer().states().bytes_done, 10);
    assert_eq!(a.transfer().states().bytes_total, 10);
    assert_eq!(a.transfer().states().file_done, 1);
    assert_eq!(a.transfer().states().file_total, 1);
    assert_eq!(
        tick(&mut a, 53),
        vec!["List Local /home/u/docs Refresh", "List Remote /srv Refresh"]
    );
    assert!(!a.is_mounted(Id::ProgressBarFull));
    assert!(tick(&mut a, 54).is_empty());
    a.handle_at(
        listing(Side::Remote, remote(), ListPurpose::Refresh, vec![file(&remote(), "a.txt", 10)]),
        55,
    );
    assert_eq!(names(a.remote().entries()), vec!["a.txt"]);
    assert_eq!(a.remote().get(0).unwrap().size, 10);
    assert!(a.take_redraw());
    assert!(!a.take_redraw());
}

#[test]
fn a_conflict_waits_for_the_user_and_skip_moves_nothing() {
    let mut a = ready(vec![file(&local(), "a.txt", 10)], vec![file(&remote(), "a.txt", 3)]);
    send(&mut a, TransferMsg::TransferFile);
    assert_eq!(a.transfer().get(0).unwrap().status, EntryStatus::Conflict);
    assert!(tick(&mut a, 50).is_empty());
    assert!(a.is_mounted(Id::ReplacePopup));
    assert!(!a.is_mounted(Id::ReplacingFilesListPopup));
    assert_eq!(a.pending().len(), 1);
    assert!(matches!(
        a.pending().head().unwrap().step,
        PendingStep::AwaitConflictResolutionThen { index: 0 }
    ));
    // Asking again while the popup is up puts off nothing more.
    assert!(tick(&mut a, 51).is_empty());
    assert_eq!(a.pending().len(), 1);
    assert!(answer(&mut a, PendingActionMsg::CloseReplacePopups).is_empty());
    assert!(!a.is_mounted(Id::ReplacePopup));
    assert_eq!(a.pending().len(), 0);
    assert_eq!(a.transfer().get(0).unwrap().status, EntryStatus::Skipped);
    assert!(tick(&mut a, 52).is_empty());
    assert_eq!(a.transfer().states().bytes_done, 0);
    assert_eq!(a.transfer().states().bytes_total, 0);
    assert_eq!(a.transfer().get(0).unwrap().transferred, 0);
}

#[test]
fn a_conflict_that_is_replaced_runs_to_done() {
    let mut a = ready(vec![file(&local(), "a.txt", 10)], vec![file(&remote(), "a.txt", 3)]);
    send(&mut a, TransferMsg::TransferFile);
    tick(&mut a, 50);
    answer(&mut a, PendingActionMsg::TransferPendingFile);
    assert_eq!(a.transfer().get(0).unwrap().status, EntryStatus::Pending);
    assert_eq!(a.pending().len(), 0);
    assert_eq!(
        tick(&mut a, 51),
        vec!["Transfer 0 File Upload /home/u/docs/a.txt /srv/a.txt"]
    );
    a.handle_at(Event::TransferDone { outcome: Outcome::Completed(10), message: String::new() }, 52);
    assert_eq!(a.transfer().get(0).unwrap().status, EntryStatus::Done);
    assert_eq!(a.transfer().states().bytes_done, 10);
    tick(&mut a, 53);
    a.handle_at(
        listing(Side::Remote, remote(), ListPurpose::Refresh, vec![file(&remote(), "a.txt", 10)]),
        54,
    );
    assert_eq!(a.remote().get(0).unwrap().size, 10);
}

#[test]
fn conflicts_are_asked_one_by_one_while_only_one_waits() {
    let entries = vec![file(&local(), "a", 1), file(&local(), "b", 2), file(&local(), "c", 4)];
    let existing = vec![file(&remote(), "a", 9), file(&remote(), "c", 9)];
    let mut a = ready(entries.clone(), existing);
    ui(&mut a, UiMsg::ToggleSyncBrowsing);
    a.handle_at(
        Event::Watcher {
            events: vec![
                ChangeEvent::Created(entries[0].clone()),
                ChangeEvent::Created(entries[1].clone()),
                ChangeEvent::Modified(entries[2].clone()),
            ],
        },
        6,
    );
    assert_eq!(a.sync_backlog(), 3);
    // The first tick queues `a` and finds it in conflict.
    assert!(tick(&mut a, 10).is_empty());
    assert_eq!(a.sync_backlog(), 2);
    assert!(a.is_mounted(Id::ReplacePopup));
    assert!(!a.is_mounted(Id::ReplacingFilesListPopup));
    tick(&mut a, 11);
    tick(&mut a, 12);
    assert_eq!(a.sync_backlog(), 0);
    assert_eq!(a.transfer().len(), 3);
    assert_eq!(a.transfer().conflicts(), 2);
    // The popup asks about one entry: the answer settles that one.
    answer(&mut a, PendingActionMsg::TransferPendingFile);
    assert_eq!(a.transfer().get(0).unwrap().status, EntryStatus::Pending);
    assert_eq!(a.transfer().get(2).unwrap().status, EntryStatus::Conflict);
    assert_eq!(tick(&mut a, 14), vec!["Transfer 0 File Upload /home/u/docs/a /srv/a"]);
    a.handle_at(Event::TransferDone { outcome: Outcome::Completed(1), message: String::new() }, 15);
    assert_eq!(tick(&mut a, 16), vec!["Transfer 1 File Upload /home/u/docs/b /srv/b"]);
    a.handle_at(Event::TransferDone { outcome: Outcome::Completed(2), message: String::new() }, 17);
    assert!(tick(&mut a, 18).is_empty());
    assert!(a.is_mounted(Id::ReplacePopup));
    answer(&mut a, PendingActionMsg::CloseReplacePopups);
    assert_eq!(a.transfer().get(2).unwrap().status, EntryStatus::Skipped);
    assert_eq!(a.transfer().states().bytes_done, 3);
    assert_eq!(a.transfer().states().bytes_total, 3);
    assert!(a.transfer().is_complete());
}

#[test]
fn two_waiting_conflicts_bring_up_the_list_and_one_answer_settles_both() {
    let entries = vec![file(&local(), "a", 1), file(&local(), "c", 4)];
    let existing = vec![file(&remote(), "a", 9), file(&remote(), "c", 9)];
    let mut a = FileTransferActivity::new(local(), remote(), FileSorting::Name, false, None, Some(1));
    a.handle_at(Event::Create { startup_error: None }, 1);
    a.handle_at(listing(Side::Local, local(), ListPurpose::Refresh, entries.clone()), 2);
    a.on_draw(false);
    a.handle_at(Event::Connected { result: Ok(()) }, 3);
    a.handle_at(listing(Side::Remote, remote(), ListPurpose::Refresh, existing), 4);
    send(&mut a, TransferMsg::TransferFile);
    a.handle_at(Event::Message(Msg::Ui(UiMsg::ChangeFileSorting(FileSorting::Size))), 5);
    assert_eq!(names(a.local().entries()), vec!["c", "a"]);
    send(&mut a, TransferMsg::TransferFile);
    assert_eq!(a.transfer().len(), 2);
    assert_eq!(a.transfer().conflicts(), 2);
    assert!(tick(&mut a, 6).is_empty());
    assert!(a.is_mounted(Id::ReplacePopup));
    assert!(a.is_mounted(Id::ReplacingFilesListPopup));
    answer(&mut a, PendingActionMsg::CloseReplacePopups);
    assert!(!a.is_mounted(Id::ReplacePopup));
    assert!(!a.is_mounted(Id::ReplacingFilesListPopup));
    assert_eq!(a.transfer().get(0).unwrap().status, EntryStatus::Skipped);
    assert_eq!(a.transfer().get(1).unwrap().status, EntryStatus::Skipped);
    assert_eq!(a.transfer().conflicts(), 0);
    assert!(tick(&mut a, 7).is_empty());
    assert_eq!(a.transfer().states().bytes_done, 0);
}

#[test]
fn a_lost_connection_pauses_the_queue_and_the_next_draw_reconnects() {
    let mut a = ready(vec![file(&local(), "a.txt", 10), file(&local(), "b.txt", 5)], vec![]);
    send(&mut a, TransferMsg::TransferFile);
    tick(&mut a, 50);
    a.on_progress(3);
    a.handle_at(
        Event::TransferDone {
            outcome: Outcome::Failed(FailureReason::ConnectionLost),
            message: "connection reset".to_string(),
        },
        51,
    );
    assert_eq!(
        a.transfer().get(0).unwrap().status,
        EntryStatus::Failed(FailureReason::ConnectionLost)
    );
    assert!(a.transfer().is_paused());
    assert!(matches!(a.connection().state(), ConnectionState::Disconnected));
    let last = a.log().get(a.log().len() - 1).unwrap();
    assert_eq!(last.level, LogLevel::Error);
    assert_eq!(last.msg, "connection reset");
    assert!(tick(&mut a, 52).is_empty());
    assert_eq!(shown(&a.on_draw(false)), vec!["Render", "Connect"]);
    assert!(a.on_draw(false).is_empty());
    assert_eq!(
        shown(&a.handle_at(Event::Connected { result: Ok(()) }, 53)),
        vec!["List Remote /srv Refresh"]
    );
    assert!(!a.transfer().is_paused());
}

#[test]
fn a_failed_entry_is_logged_and_the_queue_goes_on() {
    let mut a = ready(vec![file(&local(), "a.txt", 10)], vec![]);
    send(&mut a, TransferMsg::TransferFile);
    send(&mut a, TransferMsg::SaveFileAs("copy.txt".to_string()));
    assert_eq!(a.transfer().len(), 2);
    assert_eq!(a.transfer().get(1).unwrap().dest_path.render(), "/srv/copy.txt");
    assert_eq!(a.transfer().get(1).unwrap().source_path.render(), "/home/u/docs/a.txt");
    tick(&mut a, 50);
    a.handle_at(
        Event::TransferDone {
            outcome: Outcome::Failed(FailureReason::Remote),
            message: "denied".to_string(),
        },
        51,
    );
    assert!(a.connection().is_connected());
    assert!(!a.transfer().is_paused());
    assert_eq!(a.log().get(a.log().len() - 1).unwrap().msg, "denied");
    assert_eq!(
        tick(&mut a, 52),
        vec!["Transfer 1 File Upload /home/u/docs/a.txt /srv/copy.txt"]
    );
}

#[test]
fn abort_stops_the_queue_where_it_stands() {
    let mut a = ready(vec![file(&local(), "a.txt", 10)], vec![]);
    send(&mut a, TransferMsg::TransferFile);
    send(&mut a, TransferMsg::SaveFileAs("b.txt".to_string()));
    tick(&mut a, 50);
    assert!(a.on_progress(2));
    send(&mut a, TransferMsg::AbortTransfer);
    assert!(a.transfer().is_aborted());
    assert!(!a.on_progress(3));
    a.handle_at(
        Event::TransferDone {
            outcome: Outcome::Failed(FailureReason::Aborted),
            message: "stopped".to_string(),
        },
        51,
    );
    assert_eq!(tick(&mut a, 52).len(), 2);
    assert_eq!(a.transfer().get(1).unwrap().status, EntryStatus::Pending);
    assert!(tick(&mut a, 53).is_empty());
    assert_eq!(a.transfer().get(1).unwrap().status, EntryStatus::Pending);
    // A new selection starts a fresh queue.
    send(&mut a, TransferMsg::TransferFile);
    assert_eq!(a.transfer().len(), 1);
    assert!(!a.transfer().is_aborted());
}

#[test]
fn a_directory_is_expanded_when_its_turn_comes() {
    let mut a = ready(vec![folder(&local(), "pics")], vec![]);
    send(&mut a, TransferMsg::TransferFile);
    assert_eq!(a.transfer().get(0).unwrap().kind, TransferKind::Directory);
    assert_eq!(
        tick(&mut a, 50),
        vec!["Transfer 0 Directory Upload /home/u/docs/pics /srv/pics"]
    );
    let inside = local().join("pics");
    a.handle_at(Event::Expanded { children: vec![file(&inside, "x.png", 7)] }, 51);
    assert_eq!(a.transfer().len(), 2);
    assert_eq!(a.transfer().get(0).unwrap().status, EntryStatus::Done);
    assert_eq!(
        tick(&mut a, 52),
        vec!["Transfer 1 File Upload /home/u/docs/pics/x.png /srv/pics/x.png"]
    );
}

#[test]
fn a_failed_listing_changes_no_pane_and_is_logged_as_a_warning() {
    let mut a = ready(vec![file(&local(), "a.txt", 10)], vec![file(&remote(), "r", 1)]);
    let local_before = format!("{:?}", a.local());
    let remote_before = format!("{:?}", a.remote());
    let logged = a.log().len();
    for purpose in [ListPurpose::Refresh, ListPurpose::Enter, ListPurpose::Mirror, ListPurpose::Search] {
        a.handle_at(failed_listing(Side::Remote, path(&["srv", "x"]), purpose, "no such dir"), 60);
        a.handle_at(failed_listing(Side::Local, path(&["home"]), purpose, "denied"), 61);
        assert_eq!(format!("{:?}", a.local()), local_before);
        assert_eq!(format!("{:?}", a.remote()), remote_before);
    }
    assert_eq!(a.log().len(), logged + 6);
    for i in logged..logged + 6 {
        assert_eq!(a.log().get(i).unwrap().level, LogLevel::Warn);
    }
    assert_eq!(a.log().get(logged).unwrap().msg, "no such dir");
    assert!(a.is_mounted(Id::ErrorPopup));
}

#[test]
fn entering_a_directory_shows_it_and_remembers_the_way_back() {
    let mut a = ready(vec![file(&local(), "a.txt", 1), folder(&local(), "sub")], vec![]);
    assert!(send(&mut a, TransferMsg::EnterDirectory).is_empty());
    assert_eq!(a.log().get(a.log().len() - 1).unwrap().msg, "the entry is not a directory");
    assert!(a.is_mounted(Id::ErrorPopup));
    a.handle_at(Event::Message(Msg::Ui(UiMsg::ChangeFileSorting(FileSorting::ModifyTime))), 0);
    assert!(send(&mut a, TransferMsg::GoToPreviousDirectory).is_empty());
    let sub = local().join("sub");
    assert_eq!(
        send(&mut a, TransferMsg::GoTo("sub".to_string())),
        vec!["List Local /home/u/docs/sub Enter"]
    );
    assert!(a
        .handle_at(listing(Side::Local, sub.clone(), ListPurpose::Enter, vec![file(&sub, "x", 1)]), 70)
        .is_empty());
    assert_eq!(a.local().root_path().render(), "/home/u/docs/sub");
    assert_eq!(names(a.local().entries()), vec!["x"]);
    assert_eq!(
        send(&mut a, TransferMsg::GoToPreviousDirectory),
        vec!["List Local /home/u/docs Enter"]
    );
    assert_eq!(
        send(&mut a, TransferMsg::GoToParentDirectory),
        vec!["List Local /home/u/docs Enter"]
    );
    assert_eq!(send(&mut a, TransferMsg::GoTo("/etc".to_string())), vec!["List Local /etc Enter"]);
    assert_eq!(send(&mut a, TransferMsg::ReloadDir), vec!["List Local /home/u/docs/sub Refresh"]);
}

#[test]
fn entering_the_selected_directory_asks_for_its_listing() {
    let mut a = ready(vec![folder(&local(), "sub")], vec![]);
    assert_eq!(send(&mut a, TransferMsg::EnterDirectory), vec!["List Local /home/u/docs/sub Enter"]);
    let mut root = FileTransferActivity::new(AbsPath::root(), remote(), FileSorting::Name, false, None, None);
    assert!(send(&mut root, TransferMsg::GoToParentDirectory).is_empty());
    assert!(send(&mut root, TransferMsg::EnterDirectory).is_empty());
}

#[test]
fn turning_on_sync_browsing_in_step_is_quiet() {
    let mut a = ready(vec![], vec![]);
    assert!(ui(&mut a, UiMsg::ToggleSyncBrowsing).is_empty());
    assert!(a.browser().sync_browsing());
    assert!(!a.is_mounted(Id::SyncBrowsingMkdirPopup));
    assert_eq!(a.pending().len(), 0);
    assert_eq!(a.transfer().len(), 0);
    assert_eq!(a.sync_backlog(), 0);
}

#[test]
fn turning_on_sync_browsing_out_of_step_asks_before_making_a_directory() {
    let mut a = ready(vec![folder(&local(), "sub")], vec![]);
    let sub = local().join("sub");
    send(&mut a, TransferMsg::EnterDirectory);
    a.handle_at(listing(Side::Local, sub, ListPurpose::Enter, vec![]), 70);
    assert!(ui(&mut a, UiMsg::ToggleSyncBrowsing).is_empty());
    assert!(a.browser().sync_browsing());
    assert!(a.is_mounted(Id::SyncBrowsingMkdirPopup));
    assert_eq!(a.pending().len(), 1);
    match &a.pending().head().unwrap().step {
        PendingStep::MakeDirectoryThen { side: Side::Remote, path } => {
            assert_eq!(path.render(), "/srv/sub")
        }
        other => panic!("unexpected {:?}", other),
    }
    assert_eq!(
        answer(&mut a, PendingActionMsg::MakePendingDirectory),
        vec!["MakePendingDirectory Remote /srv/sub"]
    );
    assert!(!a.is_mounted(Id::SyncBrowsingMkdirPopup));
    assert_eq!(a.pending().len(), 1);
    assert_eq!(
        shown(&a.handle_at(Event::DirectoryMade { result: Ok(()) }, 71)),
        vec!["List Remote /srv/sub Enter"]
    );
    assert_eq!(a.pending().len(), 0);
    a.handle_at(listing(Side::Remote, path(&["srv", "sub"]), ListPurpose::Enter, vec![]), 72);
    assert_eq!(a.remote().root_path().render(), "/srv/sub");
}

#[test]
fn declining_or_failing_to_make_the_directory_drops_the_step() {
    let mut a = ready(vec![folder(&local(), "sub")], vec![]);
    send(&mut a, TransferMsg::EnterDirectory);
    a.handle_at(listing(Side::Local, local().join("sub"), ListPurpose::Enter, vec![]), 70);
    ui(&mut a, UiMsg::ToggleSyncBrowsing);
    assert!(answer(&mut a, PendingActionMsg::CloseSyncBrowsingMkdirPopup).is_empty());
    assert_eq!(a.pending().len(), 0);
    assert!(!a.is_mounted(Id::SyncBrowsingMkdirPopup));
    assert!(a.handle_at(Event::DirectoryMade { result: Ok(()) }, 71).is_empty());
    ui(&mut a, UiMsg::ToggleSyncBrowsing);
    ui(&mut a, UiMsg::ToggleSyncBrowsing);
    assert_eq!(a.pending().len(), 1);
    answer(&mut a, PendingActionMsg::MakePendingDirectory);
    let logged = a.log().len();
    assert!(a.handle_at(Event::DirectoryMade { result: Err("read only".to_string()) }, 72).is_empty());
    assert_eq!(a.pending().len(), 0);
    assert_eq!(a.log().len(), logged + 1);
    assert_eq!(a.log().get(logged).unwrap().msg, "read only");
    assert!(a.is_mounted(Id::ErrorPopup));
}

#[test]
fn in_step_the_other_pane_follows() {
    let mut a = ready(vec![folder(&local(), "sub")], vec![]);
    ui(&mut a, UiMsg::ToggleSyncBrowsing);
    send(&mut a, TransferMsg::EnterDirectory);
    let effects =
        a.handle_at(listing(Side::Local, local().join("sub"), ListPurpose::Enter, vec![]), 70);
    assert_eq!(shown(&effects), vec!["List Remote /srv/sub Mirror"]);
    // The mirror is missing: the user is asked.
    a.handle_at(failed_listing(Side::Remote, path(&["srv", "sub"]), ListPurpose::Mirror, "missing"), 71);
    assert_eq!(a.remote().root_path().render(), "/srv");
    assert!(a.is_mounted(Id::SyncBrowsingMkdirPopup));
    assert_eq!(a.pending().len(), 1);
    // Out of step nothing follows.
    let mut b = ready(vec![folder(&local(), "sub")], vec![]);
    let effects =
        b.handle_at(listing(Side::Local, local().join("sub"), ListPurpose::Enter, vec![]), 70);
    assert!(effects.is_empty());
}

#[test]
fn requests_on_files_ask_the_host() {
    let mut a = ready(vec![file(&local(), "a.txt", 1)], vec![]);
    ui(&mut a, UiMsg::ShowCopyPopup);
    assert!(a.is_mounted(Id::CopyPopup));
    assert_eq!(
        send(&mut a, TransferMsg::CopyFileTo("b.txt".to_string())),
        vec!["Copy Local /home/u/docs/a.txt /home/u/docs/b.txt"]
    );
    assert!(!a.is_mounted(Id::CopyPopup));
    assert_eq!(
        send(&mut a, TransferMsg::RenameFile("/tmp/c.txt".to_string())),
        vec!["Rename Local /home/u/docs/a.txt /tmp/c.txt"]
    );
    assert_eq!(
        send(&mut a, TransferMsg::CreateSymlink("link".to_string())),
        vec!["Symlink Local /home/u/docs/link /home/u/docs/a.txt"]
    );
    assert_eq!(send(&mut a, TransferMsg::DeleteFile), vec!["Remove Local /home/u/docs/a.txt"]);
    assert_eq!(
        send(&mut a, TransferMsg::Mkdir("new".to_string())),
        vec!["MakeDirectory Local /home/u/docs/new"]
    );
    assert_eq!(
        send(&mut a, TransferMsg::NewFile("n.txt".to_string())),
        vec!["NewFile Local /home/u/docs/n.txt"]
    );
    assert_eq!(send(&mut a, TransferMsg::ExecuteCmd("ls -l".to_string())), vec!["Exec Local ls -l"]);
    assert_eq!(send(&mut a, TransferMsg::OpenFile), vec!["Open Local /home/u/docs/a.txt None false"]);
    assert_eq!(
        send(&mut a, TransferMsg::OpenFileWith("vi".to_string())),
        vec!["Open Local /home/u/docs/a.txt Some(\"vi\") false"]
    );
    assert_eq!(send(&mut a, TransferMsg::OpenTextFile), vec!["Open Local /home/u/docs/a.txt None true"]);
    ui(&mut a, UiMsg::ChangeTransferWindow);
    assert_eq!(a.focus(), Side::Remote);
    assert!(send(&mut a, TransferMsg::DeleteFile).is_empty());
    assert_eq!(
        send(&mut a, TransferMsg::Mkdir("new".to_string())),
        vec!["MakeDirectory Remote /srv/new"]
    );
    let effects = a.handle_at(Event::Finished { side: Side::Remote, result: Ok(()) }, 80);
    assert_eq!(shown(&effects), vec!["List Remote /srv Refresh"]);
    let logged = a.log().len();
    let effects =
        a.handle_at(Event::Finished { side: Side::Remote, result: Err("nope".to_string()) }, 81);
    assert!(effects.is_empty());
    assert_eq!(a.log().get(logged).unwrap().msg, "nope");
    assert_eq!(a.log().get(logged).unwrap().level, LogLevel::Error);
    assert_eq!(a.log().get(logged).unwrap().time, 81);
}

#[test]
fn a_download_goes_to_the_local_directory() {
    let mut a = ready(vec![file(&local(), "r.bin", 1)], vec![file(&remote(), "r.bin", 8)]);
    ui(&mut a, UiMsg::ChangeTransferWindow);
    send(&mut a, TransferMsg::TransferFile);
    let entry = a.transfer().get(0).unwrap();
    assert_eq!(entry.direction, Direction::Download);
    assert_eq!(entry.source_path.render(), "/srv/r.bin");
    assert_eq!(entry.dest_path.render(), "/home/u/docs/r.bin");
    assert_eq!(entry.status, EntryStatus::Conflict);
    assert_eq!(entry.size_hint, 8);
}

#[test]
fn popups_come_and_go_with_their_messages() {
    let mut a = ready(vec![], vec![]);
    let pairs = [
        (UiMsg::ShowDeletePopup, UiMsg::CloseDeletePopup, Id::DeletePopup),
        (UiMsg::ShowDisconnectPopup, UiMsg::CloseDisconnectPopup, Id::DisconnectPopup),
        (UiMsg::ShowExecPopup, UiMsg::CloseExecPopup, Id::ExecPopup),
        (UiMsg::ShowFileInfoPopup, UiMsg::CloseFileInfoPopup, Id::FileInfoPopup),
        (UiMsg::ShowFileSortingPopup, UiMsg::CloseFileSortingPopup, Id::SortingPopup),
        (UiMsg::ShowFindPopup, UiMsg::CloseFindPopup, Id::FindPopup),
        (UiMsg::ShowGotoPopup, UiMsg::CloseGotoPopup, Id::GotoPopup),
        (UiMsg::ShowKeybindingsPopup, UiMsg::CloseKeybindingsPopup, Id::KeybindingsPopup),
        (UiMsg::ShowLogPanel, UiMsg::LogBackTabbed, Id::Log),
        (UiMsg::ShowMkdirPopup, UiMsg::CloseMkdirPopup, Id::MkdirPopup),
        (UiMsg::ShowNewFilePopup, UiMsg::CloseNewFilePopup, Id::NewfilePopup),
        (UiMsg::ShowOpenWithPopup, UiMsg::CloseOpenWithPopup, Id::OpenWithPopup),
        (UiMsg::ShowQuitPopup, UiMsg::CloseQuitPopup, Id::QuitPopup),
        (UiMsg::ShowRenamePopup, UiMsg::CloseRenamePopup, Id::RenamePopup),
        (UiMsg::ShowSaveAsPopup, UiMsg::CloseSaveAsPopup, Id::SaveAsPopup),
        (UiMsg::ShowSymlinkPopup, UiMsg::CloseSymlinkPopup, Id::SymlinkPopup),
        (UiMsg::ShowWatchedPathsList, UiMsg::CloseWatchedPathsList, Id::WatchedPathsList),
        (UiMsg::ShowWatcherPopup, UiMsg::CloseWatcherPopup, Id::WatcherPopup),
    ];
    for (open, close, id) in pairs {
        assert!(!a.is_mounted(id));
        assert!(ui(&mut a, open).is_empty());
        assert!(a.is_mounted(id));
        assert!(a.take_redraw());
        assert!(ui(&mut a, open).is_empty());
        assert!(a.is_mounted(id));
        assert!(ui(&mut a, close).is_empty());
        assert!(!a.is_mounted(id));
    }
    assert!(a.will_umount().is_none());
    ui(&mut a, UiMsg::WindowResized);
    assert!(a.take_redraw());
    ui(&mut a, UiMsg::ReplacePopupTabbed);
    ui(&mut a, UiMsg::ToggleHiddenFiles);
    assert!(a.local().show_hidden());
    assert!(!a.remote().show_hidden());
    assert!(a.handle_at(Event::Message(Msg::Nothing), 0).is_empty());
}

#[test]
fn quit_and_disconnect_end_the_activity() {
    let mut a = ready(vec![], vec![]);
    ui(&mut a, UiMsg::ShowQuitPopup);
    ui(&mut a, UiMsg::Quit);
    assert_eq!(a.will_umount(), Some(&ExitReason::Quit));
    assert!(!a.is_mounted(Id::QuitPopup));
    let mut b = ready(vec![], vec![]);
    ui(&mut b, UiMsg::ShowDisconnectPopup);
    ui(&mut b, UiMsg::Disconnect);
    assert_eq!(b.will_umount(), Some(&ExitReason::Disconnect));
    assert!(!b.is_mounted(Id::DisconnectPopup));
}

#[test]
fn watching_is_bounded_by_the_capacity() {
    let mut a = ready(vec![file(&local(), "a", 1), file(&local(), "b", 1), file(&local(), "c", 1)], vec![]);
    assert_eq!(send(&mut a, TransferMsg::ToggleWatch), vec!["Watch Local /home/u/docs/a"]);
    a.handle_at(Event::Message(Msg::Ui(UiMsg::ChangeFileSorting(FileSorting::Name))), 0);
    assert_eq!(a.watcher().unwrap().len(), 1);
    // Toggling again lifts the watch.
    assert_eq!(send(&mut a, TransferMsg::ToggleWatch), vec!["Unwatch Local /home/u/docs/a"]);
    assert_eq!(a.watcher().unwrap().len(), 0);
    send(&mut a, TransferMsg::ToggleWatch);
    assert_eq!(send(&mut a, TransferMsg::ToggleWatchFor(3)), Vec::<String>::new());
    assert_eq!(send(&mut a, TransferMsg::ToggleWatchFor(0)), vec!["Unwatch Local /home/u/docs/a"]);
    assert_eq!(a.watcher().unwrap().len(), 0);
    // Remote paths cannot be watched.
    ui(&mut a, UiMsg::ChangeTransferWindow);
    let logged = a.log().len();
    assert!(send(&mut a, TransferMsg::ToggleWatch).is_empty());
    assert_eq!(a.log().get(logged).unwrap().msg, "only local paths can be watched");
    assert_eq!(a.watcher().unwrap().len(), 0);
}

#[test]
fn a_full_watcher_refuses_and_stays_as_it_is() {
    let mut a = FileTransferActivity::new(local(), remote(), FileSorting::Name, false, None, Some(1));
    a.handle_at(Event::Create { startup_error: None }, 1);
    a.handle_at(listing(Side::Local, local(), ListPurpose::Refresh, vec![]), 2);
    // With nothing selected the directory itself is watched.
    assert_eq!(send(&mut a, TransferMsg::ToggleWatch), vec!["Watch Local /home/u/docs"]);
    a.handle_at(
        listing(Side::Local, local(), ListPurpose::Refresh, vec![file(&local(), "a", 1)]),
        3,
    );
    let logged = a.log().len();
    assert!(send(&mut a, TransferMsg::ToggleWatch).is_empty());
    assert_eq!(a.watcher().unwrap().len(), 1);
    assert_eq!(a.watcher().unwrap().get(0).unwrap().render(), "/home/u/docs");
    assert_eq!(a.log().get(logged).unwrap().msg, "no more paths can be watched");
    assert_eq!(a.log().get(logged).unwrap().level, LogLevel::Error);
    assert!(a.is_mounted(Id::ErrorPopup));
}

#[test]
fn a_missing_watcher_is_logged_when_the_activity_is_made() {
    let a = FileTransferActivity::new(local(), remote(), FileSorting::Name, false, None, None);
    assert!(a.watcher().is_none());
    assert_eq!(a.log().len(), 1);
    assert_eq!(a.log().get(0).unwrap().level, LogLevel::Error);
    assert_eq!(a.log().get(0).unwrap().msg, "changes cannot be watched");
    assert!(a.log().get(0).unwrap().time > 1_600_000_000_000);
    let b = FileTransferActivity::new_at(
        local(),
        remote(),
        FileSorting::Name,
        false,
        None,
        None,
        77,
    );
    assert_eq!(b.log().get(0).unwrap().time, 77);
    assert!(!b.is_mounted(Id::ErrorPopup));
}

#[test]
fn without_a_watcher_nothing_is_watched_and_changes_are_dropped() {
    let mut a = FileTransferActivity::new(local(), remote(), FileSorting::Name, false, None, None);
    a.handle_at(Event::Create { startup_error: None }, 1);
    let logged = a.log().len();
    assert!(send(&mut a, TransferMsg::ToggleWatch).is_empty());
    assert_eq!(a.log().get(logged).unwrap().msg, "changes cannot be watched");
    assert!(send(&mut a, TransferMsg::ToggleWatchFor(0)).is_empty());
    let logged = a.log().len();
    a.handle_at(Event::Watcher { events: vec![ChangeEvent::Removed(local().join("x"))] }, 2);
    assert_eq!(a.sync_backlog(), 0);
    assert_eq!(a.log().len(), logged);
}

#[test]
fn changes_are_queued_and_carried_out_one_per_tick() {
    let mut a = ready(vec![], vec![file(&remote(), "a.txt", 1)]);
    ui(&mut a, UiMsg::ToggleSyncBrowsing);
    let events = vec![
        ChangeEvent::Created(file(&local(), "a.txt", 10)),
        ChangeEvent::Removed(local().join("gone")),
        ChangeEvent::Modified(file(&path(&["tmp"]), "elsewhere", 1)),
        ChangeEvent::Created(file(&local().join("deep"), "b.txt", 2)),
    ];
    let logged = a.log().len();
    assert!(a.handle_at(Event::Watcher { events }, 5).is_empty());
    assert_eq!(a.sync_backlog(), 3);
    // The change elsewhere is noted for the user and nothing more.
    assert_eq!(a.log().len(), logged + 1);
    assert_eq!(a.log().get(logged).unwrap().level, LogLevel::Info);
    assert_eq!(a.log().get(logged).unwrap().msg, "/tmp/elsewhere");
    assert_eq!(a.log().get(logged).unwrap().time, 5);
    assert_eq!(a.transfer().len(), 0);
    assert!(tick(&mut a, 6).is_empty());
    assert_eq!(a.sync_backlog(), 2);
    assert_eq!(a.transfer().len(), 1);
    assert_eq!(a.transfer().get(0).unwrap().status, EntryStatus::Conflict);
    assert_eq!(a.transfer().get(0).unwrap().dest_path.render(), "/srv/a.txt");
    assert_eq!(tick(&mut a, 7), vec!["Remove Remote /srv/gone"]);
    assert!(tick(&mut a, 8).is_empty());
    assert_eq!(a.sync_backlog(), 0);
    assert_eq!(a.transfer().len(), 2);
    assert_eq!(a.transfer().get(1).unwrap().status, EntryStatus::Pending);
    assert_eq!(a.transfer().get(1).unwrap().dest_path.render(), "/srv/deep/b.txt");
}

#[test]
fn out_of_step_changes_are_not_carried_over() {
    let mut a = ready(vec![], vec![]);
    let logged = a.log().len();
    a.handle_at(Event::Watcher { events: vec![ChangeEvent::Created(file(&local(), "a", 1))] }, 5);
    assert_eq!(a.sync_backlog(), 0);
    assert_eq!(a.log().len(), logged + 1);
    assert_eq!(a.log().get(logged).unwrap().msg, "/home/u/docs/a");
}

#[test]
fn a_search_walks_the_tree_and_opens_the_found_pane() {
    let mut a = ready(vec![], vec![]);
    ui(&mut a, UiMsg::ShowFindPopup);
    assert_eq!(
        send(&mut a, TransferMsg::SearchFile("*.txt".to_string())),
        vec!["List Local /home/u/docs Search"]
    );
    assert!(a.is_searching());
    assert!(a.is_mounted(Id::WaitPopup));
    assert!(!a.is_mounted(Id::FindPopup));
    let effects = a.handle_at(
        listing(
            Side::Local,
            local(),
            ListPurpose::Search,
            vec![file(&local(), "a.txt", 1), folder(&local(), "sub"), file(&local(), "b.md", 1)],
        ),
        90,
    );
    assert_eq!(shown(&effects), vec!["List Local /home/u/docs/sub Search"]);
    let sub = local().join("sub");
    let effects = a.handle_at(
        listing(Side::Local, sub.clone(), ListPurpose::Search, vec![file(&sub, "c.txt", 1)]),
        91,
    );
    assert!(effects.is_empty());
    assert!(!a.is_searching());
    assert!(!a.is_mounted(Id::WaitPopup));
    assert!(a.is_mounted(Id::ExplorerFind));
    assert_eq!(names(a.found().unwrap().entries()), vec!["a.txt", "c.txt"]);
    assert_eq!(a.local().len(), 0);
    ui(&mut a, UiMsg::CloseFindExplorer);
    assert!(a.found().is_none());
    assert!(!a.is_mounted(Id::ExplorerFind));
}

#[test]
fn abort_cancels_a_search() {
    let mut a = ready(vec![], vec![]);
    send(&mut a, TransferMsg::SearchFile("*".to_string()));
    send(&mut a, TransferMsg::AbortTransfer);
    assert!(!a.is_searching());
    assert!(!a.is_mounted(Id::WaitPopup));
    let effects = a.handle_at(
        listing(Side::Local, local(), ListPurpose::Search, vec![folder(&local(), "sub")]),
        90,
    );
    assert!(effects.is_empty());
    assert!(a.found().is_none());
}

#[test]
fn destruction_cleans_up_whatever_the_state() {
    let mut a = ready(vec![file(&local(), "a.txt", 10)], vec![]);
    send(&mut a, TransferMsg::TransferFile);
    tick(&mut a, 50);
    let teardown = a.on_destroy(true);
    assert!(teardown.cache.is_none());
    assert_eq!(shown(&teardown.effects), vec!["DisableRawMode", "ClearScreen", "Disconnect"]);
    assert!(a.transfer().is_aborted());
    assert!(!a.connection().is_connected());
    assert!(a.on_draw(false).is_empty());
    let again = a.on_destroy(false);
    assert_eq!(shown(&again.effects), vec!["DisableRawMode", "ClearScreen"]);
}

#[test]
fn the_cache_is_handed_out_once() {
    let cache = tempfile::TempDir::new().ok();
    let had = cache.is_some();
    let mut a = FileTransferActivity::new(local(), remote(), FileSorting::Name, false, cache, None);
    assert_eq!(a.get_cache_tmp_name("x", None).is_some(), had);
    let teardown = a.on_destroy(false);
    assert_eq!(teardown.cache.is_some(), had);
    assert!(a.get_cache_tmp_name("x", None).is_none());
    assert!(a.on_destroy(false).cache.is_none());
    if let Some(dir) = teardown.cache {
        dir.close().unwrap();
    }
}

#[test]
fn cache_names_hold_the_name_the_time_and_the_type() {
    let a = FileTransferActivity::new(local(), remote(), FileSorting::Name, false, None, None);
    assert!(a.get_cache_tmp_name("x", Some("txt")).is_none());
    assert!(a.cache_tmp_name_at("x", Some("txt"), 5).is_none());
    if let Ok(dir) = tempfile::TempDir::new() {
        let b =
            FileTransferActivity::new(local(), remote(), FileSorting::Name, false, Some(dir), None);
        assert_eq!(b.cache_tmp_name_at("x", Some("txt"), 1700000000000).unwrap(), "x-1700000000000.txt");
        assert_eq!(b.cache_tmp_name_at("y", None, 12).unwrap(), "y-12");
        let name = b.get_cache_tmp_name("report", Some("pdf")).unwrap();
        assert!(name.starts_with("report-"));
        assert!(name.ends_with(".pdf"));
        let stamp: i64 = name["report-".len()..name.len() - ".pdf".len()].parse().unwrap();
        assert!(stamp > 1_600_000_000_000);
    }
}

#[test]
fn update_and_handle_read_the_clock_themselves() {
    let mut a = ready(vec![], vec![]);
    let logged = a.log().len();
    a.update(Msg::Ui(UiMsg::ChangeTransferWindow));
    assert!(a.update(Msg::Transfer(TransferMsg::ToggleWatch)).is_empty());
    assert_eq!(a.log().len(), logged + 1);
    assert!(a.log().get(logged).unwrap().time > 1_600_000_000_000);
    let effects = a.handle(Event::Finished { side: Side::Local, result: Err("x".to_string()) });
    assert!(effects.is_empty());
    assert!(a.log().get(logged + 1).unwrap().time > 1_600_000_000_000);
    assert!(a.update(Msg::Nothing).is_empty());
}

#[test]
fn an_unreachable_remote_side_is_fatal() {
    let mut a = FileTransferActivity::new(local(), remote(), FileSorting::Name, false, None, Some(2));
    a.on_create(None);
    a.on_draw(false);
    assert!(a.handle_at(Event::Unreachable { reason: "bad address".to_string() }, 7).is_empty());
    assert!(a.connection().is_fatal());
    assert!(a.is_mounted(Id::FatalPopup));
    assert!(!a.is_mounted(Id::WaitPopup));
    assert_eq!(a.log().get(0).unwrap().msg, "bad address");
    assert_eq!(a.log().get(0).unwrap().level, LogLevel::Error);
    assert!(a.on_draw(false).is_empty());
    match a.connection().state() {
        ConnectionState::Fatal(why) => assert_eq!(why, "bad address"),
        other => panic!("unexpected {:?}", other),
    }
    ui(&mut a, UiMsg::CloseFatalPopup);
    assert_eq!(a.will_umount(), Some(&ExitReason::Disconnect));
}

#[test]
fn remote_errors_are_read_for_what_they_mean() {
    let lost = [RemoteErrorKind::ConnectionError, RemoteErrorKind::NotConnected];
    let fatal = [
        RemoteErrorKind::AuthenticationFailed,
        RemoteErrorKind::BadAddress,
        RemoteErrorKind::UnsupportedFeature,
    ];
    let other = [
        RemoteErrorKind::AlreadyConnected,
        RemoteErrorKind::SslError,
        RemoteErrorKind::StatFailed,
        RemoteErrorKind::BadFile,
        RemoteErrorKind::DirectoryAlreadyExists,
        RemoteErrorKind::DirectoryNotEmpty,
        RemoteErrorKind::FileCreateDenied,
        RemoteErrorKind::CouldNotOpenFile,
        RemoteErrorKind::CouldNotRemoveFile,
        RemoteErrorKind::IoError,
        RemoteErrorKind::NoSuchFileOrDirectory,
        RemoteErrorKind::PexError,
        RemoteErrorKind::ProtocolError,
    ];
    for kind in lost {
        assert!(kind.is_connection_lost());
        assert!(!kind.is_fatal());
        assert_eq!(kind.failure_reason(), FailureReason::ConnectionLost);
    }
    assert_eq!(
        RemoteErrorKind::IoError.failure_reason_while(false),
        FailureReason::ConnectionLost
    );
    assert_eq!(RemoteErrorKind::IoError.failure_reason_while(true), FailureReason::Remote);
    assert_eq!(
        RemoteErrorKind::NotConnected.failure_reason_while(true),
        FailureReason::ConnectionLost
    );
    assert_eq!(stream_failure(true), FailureReason::Remote);
    assert_eq!(stream_failure(false), FailureReason::ConnectionLost);
    assert!(RemoteErrorKind::DirectoryAlreadyExists.directory_is_there());
    assert!(!RemoteErrorKind::DirectoryNotEmpty.directory_is_there());
    for kind in fatal {
        assert!(!kind.is_connection_lost());
        assert!(kind.is_fatal());
        assert_eq!(kind.failure_reason(), FailureReason::Remote);
    }
    for kind in other {
        assert!(!kind.is_connection_lost());
        assert!(!kind.is_fatal());
        assert_eq!(kind.failure_reason(), FailureReason::Remote);
        assert_eq!(kind.browse_error(), BrowseError::Remote);
    }
}

#[test]
fn the_cache_directory_is_known_while_there_is_a_cache() {
    let a = FileTransferActivity::new(local(), remote(), FileSorting::Name, false, None, None);
    assert!(a.cache_dir().is_none());
    if let Ok(dir) = tempfile::TempDir::new() {
        let expected = dir.path().to_string_lossy().to_string();
        let mut b =
            FileTransferActivity::new(local(), remote(), FileSorting::Name, false, Some(dir), None);
        assert_eq!(b.cache_dir(), Some(expected));
        if let Some(dir) = b.on_destroy(false).cache {
            dir.close().unwrap();
        }
        assert!(b.cache_dir().is_none());
    }
}

#[test]
fn pair_and_path_operations_are_told_apart() {
    assert_ne!(PairOp::Rename, PairOp::Copy);
    assert_ne!(PathOp::Watch, PathOp::Unwatch);
    assert_ne!(TerminalOp::Render, TerminalOp::InitView);
}
