//! The activity as a mathematical value, and what each event makes of it.

use crate::activity::effect::{EffectView, ListPurpose, PairOp, PathOp, TerminalOp};
use crate::activity::event::{EventView, ListingFailureView};
use crate::browser::{BrowserView, Side, SyncToggleView};
use crate::connection::{ConnectOutcome, ConnectionStateView};
use crate::entry::FileEntryView;
use crate::log::{appended, LogLevel, LogRecordView, LOG_CAPACITY};
use crate::message::{closed_by, shown_by, Id, MsgView, PendingActionMsg, TransferMsgView, UiMsg};
use crate::pane::PaneView;
use crate::path::{rendered, resolved};
use crate::pending::{drained, PendingActionView, PendingStepView};
use crate::search::SearchView;
use crate::sorting::FileSorting;
use crate::transfer::model::{
    Decision, Direction, Outcome, TransferAction, TransferQueueView,
};
use crate::watcher::{propagation, ChangeEventView, SyncMutationView, WatchSetView};
use vstd::prelude::*;

verus! {

/// Why the activity wants to end.
#[derive(Clone, Copy, Debug, PartialEq, Eq, Structural)]
pub enum ExitReason {
    Quit,
    Disconnect,
}

/// The mathematical value of the activity.
pub struct ActivityView {
    pub exit_reason: Option<ExitReason>,
    /// The activity was created and not destroyed since.
    pub created: bool,
    pub redraw: bool,
    pub browser: BrowserView,
    /// The side that the user works on.
    pub focus: Side,
    /// The directory that the local pane showed before its present one.
    pub previous_local: Option<Seq<Seq<char>>>,
    /// The directory that the remote pane showed before its present one.
    pub previous_remote: Option<Seq<Seq<char>>>,
    pub log: Seq<LogRecordView>,
    pub transfer: TransferQueueView,
    pub pending: Seq<PendingActionView>,
    /// The chain that the next put-off step begins.
    pub next_chain: u64,
    pub connection: ConnectionStateView,
    /// The watched paths; `None` where change detection is not to be had.
    pub watcher: Option<WatchSetView>,
    /// What local changes ask of the remote side, in the order of the changes.
    pub sync_queue: Seq<SyncMutationView>,
    pub popups: Set<Id>,
    pub has_cache: bool,
    pub search: Option<SearchView>,
}

/// What an event makes of the activity, and what it asks of the host.
pub struct Turn {
    pub state: ActivityView,
    pub effects: Seq<EffectView>,
}

/// The direction of a transfer that starts on `side`.
pub open spec fn direction_from(side: Side) -> Direction {
    match side {
        Side::Local => Direction::Upload,
        Side::Remote => Direction::Download,
    }
}

/// The chain after `chain`.
pub open spec fn chain_after(chain: u64) -> u64 {
    if chain == u64::MAX {
        0
    } else {
        (chain + 1) as u64
    }
}

/// The queue that a new selection joins: a fresh one where the old one has run
/// its course, the old one where it is still at work.
pub open spec fn renewed(queue: TransferQueueView) -> TransferQueueView {
    if queue.active() is None && (queue.complete() || queue.aborted) {
        TransferQueueView::empty()
    } else {
        queue
    }
}

/// What is logged where an entry that is no directory was to be entered.
pub open spec fn text_not_a_directory() -> Seq<char> {
    "the entry is not a directory"@
}

/// What is logged where change detection is not to be had.
pub open spec fn text_no_watcher() -> Seq<char> {
    "changes cannot be watched"@
}

/// What is logged where the watcher cannot hold one more path.
pub open spec fn text_watcher_full() -> Seq<char> {
    "no more paths can be watched"@
}

/// What is logged where a remote path was to be watched.
pub open spec fn text_watch_local_only() -> Seq<char> {
    "only local paths can be watched"@
}

impl ActivityView {
    /// Every part of the activity is well-formed.
    pub open spec fn wf(self) -> bool {
        &&& self.browser.wf()
        &&& self.transfer.wf()
        &&& self.log.len() <= LOG_CAPACITY
        &&& self.watcher is Some ==> self.watcher->0.wf()
    }

    /// The activity as it is made at the instant `now`: nothing is listed,
    /// queued, put off or mounted, the connection is down and the view is to
    /// be drawn. Where change detection is not to be had, the log says so.
    pub open spec fn initial(
        local_root: Seq<Seq<char>>,
        remote_root: Seq<Seq<char>>,
        sort_order: FileSorting,
        show_hidden: bool,
        has_cache: bool,
        watcher_capacity: Option<usize>,
        now: i64,
    ) -> ActivityView {
        let fresh = PaneView {
            root_path: local_root,
            home: None,
            entries: Seq::empty(),
            sort_order,
            show_hidden,
            cursor: 0,
        };
        ActivityView {
            exit_reason: None,
            created: false,
            redraw: true,
            browser: BrowserView {
                local: fresh,
                remote: PaneView { root_path: remote_root, ..fresh },
                found: None,
                sync_browsing: false,
            },
            focus: Side::Local,
            previous_local: None,
            previous_remote: None,
            log: match watcher_capacity {
                Some(_) => Seq::empty(),
                None => appended(
                    Seq::empty(),
                    LogRecordView { time: now, level: LogLevel::Error, msg: text_no_watcher() },
                ),
            },
            transfer: TransferQueueView::empty(),
            pending: Seq::empty(),
            next_chain: 0,
            connection: ConnectionStateView::Disconnected,
            watcher: match watcher_capacity {
                Some(max) => Some(WatchSetView::empty(max as nat)),
                None => None,
            },
            sync_queue: Seq::empty(),
            popups: Set::empty(),
            has_cache,
            search: None,
        }
    }

    /// The activity as it is, with nothing asked.
    pub open spec fn quiet(self) -> Turn {
        Turn { state: self, effects: Seq::empty() }
    }

    /// The activity as it is, with `effects` asked.
    pub open spec fn asking(self, effects: Seq<EffectView>) -> Turn {
        Turn { state: self, effects }
    }

    /// The activity to be drawn anew.
    pub open spec fn marked(self) -> ActivityView {
        ActivityView { redraw: true, ..self }
    }

    /// The activity with the component up.
    pub open spec fn mounted(self, id: Id) -> ActivityView {
        ActivityView { popups: self.popups.insert(id), ..self }
    }

    /// The activity with the component down.
    pub open spec fn unmounted(self, id: Id) -> ActivityView {
        ActivityView { popups: self.popups.remove(id), ..self }
    }

    /// The activity with one more line in its log.
    pub open spec fn logged(self, now: i64, level: LogLevel, msg: Seq<char>) -> ActivityView {
        ActivityView {
            log: appended(self.log, LogRecordView { time: now, level, msg }),
            ..self
        }
    }

    /// The activity after something went wrong that the user is to see: a line
    /// in the log and the error popup.
    pub open spec fn failed(self, now: i64, msg: Seq<char>) -> ActivityView {
        self.logged(now, LogLevel::Error, msg).mounted(Id::ErrorPopup).marked()
    }

    /// The activity with one more put-off step, which begins a chain of its own.
    pub open spec fn chained(self, step: PendingStepView) -> ActivityView {
        ActivityView {
            pending: self.pending.push(PendingActionView { chain: self.next_chain, step }),
            next_chain: chain_after(self.next_chain),
            ..self
        }
    }

    /// The directory that the pane of `side` shows.
    pub open spec fn cwd(self, side: Side) -> Seq<Seq<char>> {
        self.browser.pane(side).root_path
    }

    /// The entry under the cursor of the pane that the user works on.
    pub open spec fn selected(self) -> Option<FileEntryView> {
        let pane = self.browser.pane(self.focus);
        if pane.entries.len() > 0 {
            Some(pane.entries[pane.cursor as int])
        } else {
            None
        }
    }

    /// The directory that the pane of `side` showed before its present one.
    pub open spec fn previous(self, side: Side) -> Option<Seq<Seq<char>>> {
        match side {
            Side::Local => self.previous_local,
            Side::Remote => self.previous_remote,
        }
    }

    /// The activity that remembers `path` as the directory that the pane of
    /// `side` showed before.
    pub open spec fn with_previous(self, side: Side, path: Seq<Seq<char>>) -> ActivityView {
        match side {
            Side::Local => ActivityView { previous_local: Some(path), ..self },
            Side::Remote => ActivityView { previous_remote: Some(path), ..self },
        }
    }

    /// Creation: the terminal is prepared, the local directory is listed and
    /// the view is set up. An error from before is shown in the fatal popup.
    #[verifier::opaque]
    pub open spec fn on_create(self, startup_error: Option<Seq<char>>, now: i64) -> Turn {
        let up = ActivityView { created: true, ..self };
        let state = match startup_error {
            Some(error) => up.logged(now, LogLevel::Error, error).mounted(Id::FatalPopup).marked(),
            None => up,
        };
        state.asking(
            seq![
                EffectView::Terminal(TerminalOp::ClearScreen),
                EffectView::Terminal(TerminalOp::EnableRawMode),
                EffectView::List {
                    side: Side::Local,
                    path: self.cwd(Side::Local),
                    purpose: ListPurpose::Refresh,
                },
                EffectView::Terminal(TerminalOp::SetupTextEditor),
                EffectView::Terminal(TerminalOp::InitView),
            ],
        )
    }

    /// The beginning of a draw. A connection that no longer answers is noted.
    /// While disconnected, and unless the fatal popup is up, the activity shows
    /// that it connects and asks for one attempt.
    #[verifier::opaque]
    pub open spec fn on_draw(self, connected: bool) -> Turn {
        if !self.created {
            self.quiet()
        } else {
            let seen = self.connection.observed(connected);
            let fatal = self.popups.contains(Id::FatalPopup);
            let state = ActivityView { connection: seen.tick(fatal), ..self };
            if seen.attempts(fatal) {
                state.mounted(Id::WaitPopup).marked().asking(
                    seq![EffectView::Terminal(TerminalOp::Render), EffectView::Connect],
                )
            } else {
                state.quiet()
            }
        }
    }

    /// The answer to an attempt to connect. A connection that stands lets a
    /// paused queue go on and has the remote directory listed; a failure is
    /// logged, and the next draw tries again.
    #[verifier::opaque]
    pub open spec fn on_connected(self, result: Result<(), Seq<char>>, now: i64) -> Turn {
        let state = ActivityView { connection: self.connection.answered(result is Ok), ..self };
        match self.connection.outcome(result is Ok) {
            ConnectOutcome::Established => ActivityView {
                transfer: self.transfer.resume(),
                ..state
            }.unmounted(Id::WaitPopup).marked().asking(
                seq![
                    EffectView::List {
                        side: Side::Remote,
                        path: self.cwd(Side::Remote),
                        purpose: ListPurpose::Refresh,
                    },
                ],
            ),
            ConnectOutcome::Failed => state.logged(
                now,
                LogLevel::Error,
                result->Err_0,
            ).unmounted(Id::WaitPopup).marked().quiet(),
            ConnectOutcome::Ignored => self.quiet(),
        }
    }

    /// The remote side is ruled out for good: the connection is in its fatal
    /// state, the error is logged and shown in the fatal popup, behind which
    /// nothing connects any more.
    #[verifier::opaque]
    pub open spec fn on_unreachable(self, reason: Seq<char>, now: i64) -> Turn {
        ActivityView {
            connection: self.connection.failed_for_good(reason),
            ..self
        }.logged(now, LogLevel::Error, reason).unmounted(Id::WaitPopup).mounted(
            Id::FatalPopup,
        ).marked().quiet()
    }

    /// The answer to a listing. A listing that failed changes no pane; it is
    /// logged as a warning and shown. One that went through is taken in as its
    /// purpose says.
    #[verifier::opaque]
    pub open spec fn on_listing(
        self,
        side: Side,
        path: Seq<Seq<char>>,
        purpose: ListPurpose,
        result: Result<Seq<FileEntryView>, ListingFailureView>,
        now: i64,
    ) -> Turn {
        match purpose {
            ListPurpose::Refresh => match result {
                Ok(entries) => ActivityView {
                    browser: self.browser.listed(side, Ok(entries)),
                    ..self
                }.marked().quiet(),
                Err(failure) => self.logged(now, LogLevel::Warn, failure.message).mounted(
                    Id::ErrorPopup,
                ).marked().quiet(),
            },
            ListPurpose::Enter => match result {
                Ok(entries) => {
                    let state = ActivityView {
                        browser: self.browser.entered(side, path, Ok(entries)),
                        ..self
                    }.with_previous(side, self.cwd(side)).marked();
                    match self.browser.mirror(side, path) {
                        Some(target) => if self.browser.sync_browsing {
                            state.asking(
                                seq![
                                    EffectView::List {
                                        side: side.other(),
                                        path: target,
                                        purpose: ListPurpose::Mirror,
                                    },
                                ],
                            )
                        } else {
                            state.quiet()
                        },
                        None => state.quiet(),
                    }
                },
                Err(failure) => self.logged(now, LogLevel::Warn, failure.message).mounted(
                    Id::ErrorPopup,
                ).marked().quiet(),
            },
            ListPurpose::Mirror => match result {
                Ok(entries) => ActivityView {
                    browser: self.browser.entered(side, path, Ok(entries)),
                    ..self
                }.with_previous(side, self.cwd(side)).marked().quiet(),
                Err(failure) => self.logged(now, LogLevel::Warn, failure.message).mounted(
                    Id::SyncBrowsingMkdirPopup,
                ).chained(PendingStepView::MakeDirectoryThen { side, path }).marked().quiet(),
            },
            ListPurpose::Search => match self.search {
                None => self.quiet(),
                Some(search) => {
                    let fed = match result {
                        Ok(entries) => search.fed(entries),
                        Err(_) => search,
                    };
                    if fed.pending.len() > 0 {
                        ActivityView { search: Some(fed.advanced(false)), ..self }.asking(
                            seq![
                                EffectView::List {
                                    side: fed.side,
                                    path: fed.pending.last(),
                                    purpose: ListPurpose::Search,
                                },
                            ],
                        )
                    } else {
                        ActivityView {
                            browser: self.browser.with_found(fed.side, fed.found),
                            search: None,
                            ..self
                        }.unmounted(Id::WaitPopup).mounted(Id::ExplorerFind).marked().quiet()
                    }
                },
            },
        }
    }

    /// The answer to an operation on files: where it went through, the
    /// directory of that side is listed anew; where it failed, the failure is
    /// logged and shown.
    #[verifier::opaque]
    pub open spec fn on_finished(self, side: Side, result: Result<(), Seq<char>>, now: i64) -> Turn {
        match result {
            Ok(_) => self.asking(
                seq![EffectView::List { side, path: self.cwd(side), purpose: ListPurpose::Refresh }],
            ),
            Err(message) => self.failed(now, message).quiet(),
        }
    }

    /// The answer to the making of a directory that a put-off step waits for.
    /// Where it was made, the step leaves the queue and the directory is
    /// entered; where not, the step is dropped with all of its chain.
    #[verifier::opaque]
    pub open spec fn on_directory_made(self, result: Result<(), Seq<char>>, now: i64) -> Turn {
        if self.pending.len() > 0 && self.pending[0].step is MakeDirectoryThen {
            let state = ActivityView { pending: drained(self.pending, result is Ok), ..self };
            match result {
                Ok(_) => state.asking(
                    seq![
                        EffectView::List {
                            side: self.pending[0].step->MakeDirectoryThen_side,
                            path: self.pending[0].step->MakeDirectoryThen_path,
                            purpose: ListPurpose::Enter,
                        },
                    ],
                ),
                Err(message) => state.failed(now, message).quiet(),
            }
        } else {
            self.quiet()
        }
    }

    /// The end of the copy of the entry in flight. A failure is logged, and the
    /// queue goes on with the next entry; a lost connection also marks the
    /// connection as down, so that the next draw connects again.
    #[verifier::opaque]
    pub open spec fn on_transfer_done(self, outcome: Outcome, message: Seq<char>, now: i64) -> Turn {
        let state = ActivityView { transfer: self.transfer.finish(outcome), ..self }.marked();
        match outcome {
            Outcome::Completed(_) => state.quiet(),
            Outcome::Failed(reason) => ActivityView {
                connection: if reason is ConnectionLost {
                    self.connection.observed(false)
                } else {
                    self.connection
                },
                ..state
            }.logged(now, LogLevel::Error, message).quiet(),
        }
    }

    /// The directory in flight was made and listed: its children join the queue.
    #[verifier::opaque]
    pub open spec fn on_expanded(self, children: Seq<FileEntryView>) -> Turn {
        ActivityView { transfer: self.transfer.expand(children), ..self }.marked().quiet()
    }

    /// The activity after one change was taken note of. What the change asks of
    /// the remote side is put in line; a change that asks for nothing is
    /// written to the log, for the user to see.
    pub open spec fn noted(self, event: ChangeEventView, now: i64) -> ActivityView {
        match propagation(
            event,
            self.browser.sync_browsing,
            self.cwd(Side::Local),
            self.cwd(Side::Remote),
        ) {
            Some(mutation) => ActivityView { sync_queue: self.sync_queue.push(mutation), ..self },
            None => self.logged(now, LogLevel::Info, rendered(event.path())),
        }
    }

    /// The activity after each of the changes was taken note of in turn.
    pub open spec fn noted_all(self, events: Seq<ChangeEventView>, now: i64) -> ActivityView
        decreases events.len(),
    {
        if events.len() == 0 {
            self
        } else {
            self.noted_all(events.drop_last(), now).noted(events.last(), now)
        }
    }

    /// Changes that the watcher saw. Nothing is carried out here: what the
    /// changes ask for waits in line for the ticks to come.
    #[verifier::opaque]
    pub open spec fn on_watcher(self, events: Seq<ChangeEventView>, now: i64) -> Turn {
        if self.watcher is None {
            self.quiet()
        } else {
            self.noted_all(events, now).quiet()
        }
    }

    /// The activity after the first mutation in line was taken up: an upload
    /// joins the transfer queue, with the remote listing to tell conflicts
    /// where the destination is the directory that the remote pane shows; a
    /// removal is asked of the host.
    #[verifier::opaque]
    pub open spec fn sync_taken(self) -> Turn {
        if self.sync_queue.len() == 0 {
            self.quiet()
        } else {
            let state = ActivityView { sync_queue: self.sync_queue.drop_first(), ..self };
            match self.sync_queue[0] {
                SyncMutationView::Upload { entry, dest_dir } => ActivityView {
                    transfer: renewed(self.transfer).enqueue(
                        seq![entry],
                        Direction::Upload,
                        dest_dir,
                        if dest_dir == self.cwd(Side::Remote) {
                            self.browser.remote.entries
                        } else {
                            Seq::empty()
                        },
                    ),
                    ..state
                }.quiet(),
                SyncMutationView::Remove { path } => state.asking(
                    seq![EffectView::OnPath { op: PathOp::Remove, side: Side::Remote, path }],
                ),
            }
        }
    }

    /// The activity after the executor took its next step.
    #[verifier::opaque]
    pub open spec fn executed(self, now: i64) -> Turn {
        let state = ActivityView { transfer: self.transfer.start(now), ..self };
        match self.transfer.next_action() {
            TransferAction::CopyFile(i) | TransferAction::ExpandDirectory(i) => state.mounted(
                Id::ProgressBarFull,
            ).mounted(Id::ProgressBarPartial).marked().asking(
                seq![
                    EffectView::Transfer {
                        index: i,
                        kind: self.transfer.entries[i as int].kind,
                        direction: self.transfer.entries[i as int].direction,
                        source: self.transfer.entries[i as int].source_path,
                        dest: self.transfer.entries[i as int].dest_path,
                    },
                ],
            ),
            TransferAction::AwaitDecision(i) => if self.popups.contains(Id::ReplacePopup) {
                state.quiet()
            } else {
                let asked = state.mounted(Id::ReplacePopup);
                (if self.transfer.conflicts() > 1 {
                    asked.mounted(Id::ReplacingFilesListPopup)
                } else {
                    asked
                }).chained(PendingStepView::AwaitConflictResolutionThen { index: i }).marked().quiet()
            },
            TransferAction::Complete | TransferAction::Halted => if self.popups.contains(
                Id::ProgressBarFull,
            ) {
                state.unmounted(Id::ProgressBarFull).unmounted(Id::ProgressBarPartial).marked().asking(
                    seq![
                        EffectView::List {
                            side: Side::Local,
                            path: self.cwd(Side::Local),
                            purpose: ListPurpose::Refresh,
                        },
                        EffectView::List {
                            side: Side::Remote,
                            path: self.cwd(Side::Remote),
                            purpose: ListPurpose::Refresh,
                        },
                    ],
                )
            } else {
                state.quiet()
            },
            _ => state.quiet(),
        }
    }

    /// One tick of the queues: the first mutation in line is taken up, then the
    /// executor takes its next step.
    pub open spec fn on_tick(self, now: i64) -> Turn {
        let first = self.sync_taken();
        let second = first.state.executed(now);
        Turn { state: second.state, effects: first.effects + second.effects }
    }

    /// The user's answer to a question that holds a put-off step back.
    #[verifier::opaque]
    pub open spec fn on_pending_msg(self, msg: PendingActionMsg) -> Turn {
        let plural = self.popups.contains(Id::ReplacingFilesListPopup);
        let awaits_answer = self.pending.len() > 0 && self.pending[0].step
            is AwaitConflictResolutionThen;
        let awaits_directory = self.pending.len() > 0 && self.pending[0].step is MakeDirectoryThen;
        match msg {
            PendingActionMsg::CloseReplacePopups | PendingActionMsg::TransferPendingFile => {
                let decision = if msg == PendingActionMsg::TransferPendingFile {
                    if plural {
                        Decision::ReplaceAll
                    } else {
                        Decision::ReplaceThis
                    }
                } else {
                    if plural {
                        Decision::SkipAll
                    } else {
                        Decision::SkipThis
                    }
                };
                ActivityView {
                    transfer: self.transfer.resolve(decision),
                    pending: if awaits_answer {
                        drained(self.pending, true)
                    } else {
                        self.pending
                    },
                    ..self
                }.unmounted(Id::ReplacePopup).unmounted(Id::ReplacingFilesListPopup).marked().quiet()
            },
            PendingActionMsg::CloseSyncBrowsingMkdirPopup => ActivityView {
                pending: if awaits_directory {
                    drained(self.pending, false)
                } else {
                    self.pending
                },
                ..self
            }.unmounted(Id::SyncBrowsingMkdirPopup).marked().quiet(),
            PendingActionMsg::MakePendingDirectory => {
                let state = self.unmounted(Id::SyncBrowsingMkdirPopup).marked();
                if awaits_directory {
                    state.asking(
                        seq![
                            EffectView::OnPath {
                                op: PathOp::MakePendingDirectory,
                                side: self.pending[0].step->MakeDirectoryThen_side,
                                path: self.pending[0].step->MakeDirectoryThen_path,
                            },
                        ],
                    )
                } else {
                    state.quiet()
                }
            },
        }
    }

    /// The activity after the component that a message takes away was taken
    /// down and the one that it brings up was mounted.
    #[verifier::opaque]
    pub open spec fn swapped(self, msg: UiMsg) -> ActivityView {
        let closed = match closed_by(msg) {
            Some(id) => self.unmounted(id),
            None => self,
        };
        let shown = match shown_by(msg) {
            Some(id) => closed.mounted(id),
            None => closed,
        };
        shown.marked()
    }

    /// A request that changes what the user interface shows.
    #[verifier::opaque]
    pub open spec fn on_ui_msg(self, msg: UiMsg) -> Turn {
        let state = self.swapped(msg);
        match msg {
            UiMsg::ChangeFileSorting(order) => ActivityView {
                browser: self.browser.with_pane(
                    self.focus,
                    self.browser.pane(self.focus).sorted_by(order),
                ),
                ..state
            }.quiet(),
            UiMsg::ChangeTransferWindow => ActivityView { focus: self.focus.other(), ..state }.quiet(),
            UiMsg::CloseFatalPopup | UiMsg::Disconnect => ActivityView {
                exit_reason: Some(ExitReason::Disconnect),
                ..state
            }.quiet(),
            UiMsg::Quit => ActivityView { exit_reason: Some(ExitReason::Quit), ..state }.quiet(),
            UiMsg::CloseFindExplorer => ActivityView {
                browser: BrowserView { found: None, ..self.browser },
                ..state
            }.quiet(),
            UiMsg::ToggleHiddenFiles => ActivityView {
                browser: self.browser.with_pane(
                    self.focus,
                    PaneView {
                        show_hidden: !self.browser.pane(self.focus).show_hidden,
                        ..self.browser.pane(self.focus)
                    },
                ),
                ..state
            }.quiet(),
            UiMsg::ToggleSyncBrowsing => {
                let toggled = ActivityView { browser: self.browser.toggled(), ..state };
                match self.browser.sync_toggle() {
                    SyncToggleView::Diverged { target } => toggled.mounted(
                        Id::SyncBrowsingMkdirPopup,
                    ).chained(
                        PendingStepView::MakeDirectoryThen { side: Side::Remote, path: target },
                    ).quiet(),
                    _ => toggled.quiet(),
                }
            },
            _ => state.quiet(),
        }
    }

    /// The selected entry under another name.
    pub open spec fn renamed(entry: FileEntryView, name: Seq<char>) -> FileEntryView {
        FileEntryView { name, ..entry }
    }

    /// The activity after the entries were queued for the side across.
    #[verifier::opaque]
    pub open spec fn queueing(self, entries: Seq<FileEntryView>) -> ActivityView {
        ActivityView {
            transfer: renewed(self.transfer).enqueue(
                entries,
                direction_from(self.focus),
                self.cwd(self.focus.other()),
                self.browser.pane(self.focus.other()).entries,
            ),
            ..self
        }
    }

    /// The activity after the watch on `path` was toggled.
    #[verifier::opaque]
    pub open spec fn watch_toggled(self, path: Seq<Seq<char>>, now: i64) -> Turn {
        match self.watcher {
            None => self.failed(now, text_no_watcher()).quiet(),
            Some(set) => if set.watches(path) {
                ActivityView { watcher: Some(set.unwatch(path)), ..self }.asking(
                    seq![EffectView::OnPath { op: PathOp::Unwatch, side: Side::Local, path }],
                )
            } else {
                match set.watch_result(path) {
                    Ok(_) => ActivityView { watcher: Some(set.watch(path)), ..self }.asking(
                        seq![EffectView::OnPath { op: PathOp::Watch, side: Side::Local, path }],
                    ),
                    Err(_) => self.failed(now, text_watcher_full()).quiet(),
                }
            },
        }
    }

    /// A request to change, run or open files.
    #[verifier::opaque]
    pub open spec fn on_file_request(self, msg: TransferMsgView) -> Turn {
        let side = self.focus;
        let cwd = self.cwd(side);
        let state = self.marked();
        match msg {
            TransferMsgView::CopyFileTo(dest) => match self.selected() {
                Some(entry) => state.unmounted(Id::CopyPopup).asking(
                    seq![
                        EffectView::OnPair {
                            op: PairOp::Copy,
                            side,
                            from: entry.absolute_path,
                            to: resolved(cwd, dest),
                        },
                    ],
                ),
                None => state.unmounted(Id::CopyPopup).quiet(),
            },
            TransferMsgView::CreateSymlink(name) => match self.selected() {
                Some(entry) => state.unmounted(Id::SymlinkPopup).asking(
                    seq![
                        EffectView::OnPair {
                            op: PairOp::Symlink,
                            side,
                            from: resolved(cwd, name),
                            to: entry.absolute_path,
                        },
                    ],
                ),
                None => state.unmounted(Id::SymlinkPopup).quiet(),
            },
            TransferMsgView::DeleteFile => match self.selected() {
                Some(entry) => state.unmounted(Id::DeletePopup).asking(
                    seq![EffectView::OnPath { op: PathOp::Remove, side, path: entry.absolute_path }],
                ),
                None => state.unmounted(Id::DeletePopup).quiet(),
            },
            TransferMsgView::ExecuteCmd(command) => state.unmounted(Id::ExecPopup).asking(
                seq![EffectView::Exec { side, command }],
            ),
            TransferMsgView::Mkdir(name) => state.unmounted(Id::MkdirPopup).asking(
                seq![
                    EffectView::OnPath {
                        op: PathOp::MakeDirectory,
                        side,
                        path: resolved(cwd, name),
                    },
                ],
            ),
            TransferMsgView::NewFile(name) => state.unmounted(Id::NewfilePopup).asking(
                seq![EffectView::OnPath { op: PathOp::NewFile, side, path: resolved(cwd, name) }],
            ),
            TransferMsgView::OpenFile => match self.selected() {
                Some(entry) => state.asking(
                    seq![
                        EffectView::Open {
                            side,
                            path: entry.absolute_path,
                            with: None,
                            as_text: false,
                        },
                    ],
                ),
                None => state.quiet(),
            },
            TransferMsgView::OpenFileWith(program) => match self.selected() {
                Some(entry) => state.unmounted(Id::OpenWithPopup).asking(
                    seq![
                        EffectView::Open {
                            side,
                            path: entry.absolute_path,
                            with: Some(program),
                            as_text: false,
                        },
                    ],
                ),
                None => state.unmounted(Id::OpenWithPopup).quiet(),
            },
            TransferMsgView::OpenTextFile => match self.selected() {
                Some(entry) => state.asking(
                    seq![
                        EffectView::Open {
                            side,
                            path: entry.absolute_path,
                            with: None,
                            as_text: true,
                        },
                    ],
                ),
                None => state.quiet(),
            },
            TransferMsgView::RenameFile(name) => match self.selected() {
                Some(entry) => state.unmounted(Id::RenamePopup).asking(
                    seq![
                        EffectView::OnPair {
                            op: PairOp::Rename,
                            side,
                            from: entry.absolute_path,
                            to: resolved(cwd, name),
                        },
                    ],
                ),
                None => state.unmounted(Id::RenamePopup).quiet(),
            },
            _ => state.quiet(),
        }
    }

    /// A request to go elsewhere, to list anew or to search.
    #[verifier::opaque]
    pub open spec fn on_browse_request(self, msg: TransferMsgView, now: i64) -> Turn {
        let side = self.focus;
        let cwd = self.cwd(side);
        let state = self.marked();
        match msg {
            TransferMsgView::EnterDirectory => match self.selected() {
                Some(entry) => if entry.kind is Directory {
                    state.asking(
                        seq![
                            EffectView::List {
                                side,
                                path: entry.absolute_path,
                                purpose: ListPurpose::Enter,
                            },
                        ],
                    )
                } else {
                    self.failed(now, text_not_a_directory()).quiet()
                },
                None => state.quiet(),
            },
            TransferMsgView::GoTo(path) => state.unmounted(Id::GotoPopup).asking(
                seq![EffectView::List { side, path: resolved(cwd, path), purpose: ListPurpose::Enter }],
            ),
            TransferMsgView::GoToParentDirectory => if cwd.len() > 0 {
                state.asking(
                    seq![
                        EffectView::List { side, path: cwd.drop_last(), purpose: ListPurpose::Enter },
                    ],
                )
            } else {
                state.quiet()
            },
            TransferMsgView::GoToPreviousDirectory => match self.previous(side) {
                Some(path) => state.asking(
                    seq![EffectView::List { side, path, purpose: ListPurpose::Enter }],
                ),
                None => state.quiet(),
            },
            TransferMsgView::ReloadDir => state.asking(
                seq![EffectView::List { side, path: cwd, purpose: ListPurpose::Refresh }],
            ),
            TransferMsgView::SearchFile(pattern) => ActivityView {
                search: Some(
                    SearchView { side, pattern, pending: Seq::empty(), found: Seq::empty() },
                ),
                ..state
            }.unmounted(Id::FindPopup).mounted(Id::WaitPopup).asking(
                seq![EffectView::List { side, path: cwd, purpose: ListPurpose::Search }],
            ),
            _ => state.quiet(),
        }
    }

    /// A request to transfer or to stop transferring.
    #[verifier::opaque]
    pub open spec fn on_queue_request(self, msg: TransferMsgView, now: i64) -> Turn {
        let side = self.focus;
        let cwd = self.cwd(side);
        let state = self.marked();
        match msg {
            TransferMsgView::AbortTransfer => ActivityView {
                transfer: self.transfer.abort(),
                search: None,
                popups: if self.search is Some {
                    self.popups.remove(Id::WaitPopup)
                } else {
                    self.popups
                },
                ..state
            }.quiet(),
            TransferMsgView::SaveFileAs(name) => match self.selected() {
                Some(entry) => state.unmounted(Id::SaveAsPopup).queueing(
                    seq![Self::renamed(entry, name)],
                ).quiet(),
                None => state.unmounted(Id::SaveAsPopup).quiet(),
            },
            TransferMsgView::TransferFile => match self.selected() {
                Some(entry) => state.queueing(seq![entry]).quiet(),
                None => state.quiet(),
            },
            _ => state.quiet(),
        }
    }

    /// The activity after the watch on the path at the index of the watched
    /// paths was lifted; where there is no such path, nothing changes.
    #[verifier::opaque]
    pub open spec fn watch_lifted(self, index: usize) -> Turn {
        match self.watcher {
            Some(set) => if index < set.paths.len() {
                ActivityView { watcher: Some(set.unwatch(set.paths[index as int])), ..self }.asking(
                    seq![
                        EffectView::OnPath {
                            op: PathOp::Unwatch,
                            side: Side::Local,
                            path: set.paths[index as int],
                        },
                    ],
                )
            } else {
                self.quiet()
            },
            None => self.quiet(),
        }
    }

    /// A request to watch a path or to watch it no longer.
    #[verifier::opaque]
    pub open spec fn on_watch_request(self, msg: TransferMsgView, now: i64) -> Turn {
        let side = self.focus;
        let cwd = self.cwd(side);
        let state = self.marked();
        match msg {
            TransferMsgView::ToggleWatch => if side is Remote {
                self.failed(now, text_watch_local_only()).unmounted(Id::WatcherPopup).quiet()
            } else {
                let turn = state.unmounted(Id::WatcherPopup).watch_toggled(
                    match self.selected() {
                        Some(entry) => entry.absolute_path,
                        None => cwd,
                    },
                    now,
                );
                turn
            },
            TransferMsgView::ToggleWatchFor(index) => state.watch_lifted(index),
            _ => state.quiet(),
        }
    }

    /// A request to browse, to change files or to transfer them.
    pub open spec fn on_transfer_msg(self, msg: TransferMsgView, now: i64) -> Turn {
        match msg {
            TransferMsgView::CopyFileTo(_)
            | TransferMsgView::CreateSymlink(_)
            | TransferMsgView::DeleteFile
            | TransferMsgView::ExecuteCmd(_)
            | TransferMsgView::Mkdir(_)
            | TransferMsgView::NewFile(_)
            | TransferMsgView::OpenFile
            | TransferMsgView::OpenFileWith(_)
            | TransferMsgView::OpenTextFile
            | TransferMsgView::RenameFile(_) => self.on_file_request(msg),
            TransferMsgView::EnterDirectory
            | TransferMsgView::GoTo(_)
            | TransferMsgView::GoToParentDirectory
            | TransferMsgView::GoToPreviousDirectory
            | TransferMsgView::ReloadDir
            | TransferMsgView::SearchFile(_) => self.on_browse_request(msg, now),
            TransferMsgView::AbortTransfer
            | TransferMsgView::SaveFileAs(_)
            | TransferMsgView::TransferFile => self.on_queue_request(msg, now),
            TransferMsgView::ToggleWatch | TransferMsgView::ToggleWatchFor(_) => self.on_watch_request(
                msg,
                now,
            ),
        }
    }

    /// A message of the user interface, handled by its kind.
    pub open spec fn on_message(self, msg: MsgView, now: i64) -> Turn {
        match msg {
            MsgView::PendingAction(m) => self.on_pending_msg(m),
            MsgView::Transfer(m) => self.on_transfer_msg(m, now),
            MsgView::Ui(m) => self.on_ui_msg(m),
            MsgView::Nothing => self.quiet(),
        }
    }

    /// What the event that arrives at the instant `now` makes of the activity.
    pub open spec fn step(self, event: EventView, now: i64) -> Turn {
        match event {
            EventView::Create { startup_error } => self.on_create(startup_error, now),
            EventView::Draw { connected } => self.on_draw(connected),
            EventView::Connected { result } => self.on_connected(result, now),
            EventView::Unreachable { reason } => self.on_unreachable(reason, now),
            EventView::Listing { side, path, purpose, result } => self.on_listing(
                side,
                path,
                purpose,
                result,
                now,
            ),
            EventView::Message(msg) => self.on_message(msg, now),
            EventView::Finished { side, result } => self.on_finished(side, result, now),
            EventView::DirectoryMade { result } => self.on_directory_made(result, now),
            EventView::TransferDone { outcome, message } => self.on_transfer_done(
                outcome,
                message,
                now,
            ),
            EventView::Expanded { children } => self.on_expanded(children),
            EventView::Watcher { events } => self.on_watcher(events, now),
            EventView::Tick => self.on_tick(now),
        }
    }

    /// The activity after its destruction: the queue is stopped, a search is
    /// dropped, the cache is handed out and the connection is closed.
    pub open spec fn destroyed(self) -> ActivityView {
        ActivityView {
            created: false,
            transfer: self.transfer.abort(),
            search: None,
            has_cache: false,
            connection: self.connection.disconnected(),
            ..self
        }
    }

    /// What destruction asks of the host, whatever state the activity is in:
    /// leave raw mode, clear the screen, and close the connection where it
    /// stands. Each is to be tried whether or not the others went through.
    pub open spec fn teardown(connected: bool) -> Seq<EffectView> {
        if connected {
            seq![
                EffectView::Terminal(TerminalOp::DisableRawMode),
                EffectView::Terminal(TerminalOp::ClearScreen),
                EffectView::Disconnect,
            ]
        } else {
            seq![
                EffectView::Terminal(TerminalOp::DisableRawMode),
                EffectView::Terminal(TerminalOp::ClearScreen),
            ]
        }
    }
}

} // verus!
