//! What holds of the activity whatever happens to it.

use crate::activity::effect::{EffectView, ListPurpose, TerminalOp};
use crate::activity::event::{EventView, ListingFailureView};
use crate::activity::model::{ActivityView};
use crate::browser::Side;
use crate::entry::FileEntryView;
use crate::log::{LogLevel, LOG_CAPACITY};
use crate::message::{Id, MsgView, PendingActionMsg, TransferMsgView, UiMsg};
use crate::pane::lemma_pane_stays_wf;
use crate::transfer::lemmas::{
    lemma_abort_wf, lemma_done_within_total, lemma_enqueue_wf, lemma_expand_wf, lemma_finish_wf,
    lemma_first_open_from, lemma_resolve_wf, lemma_start_wf,
};
use crate::transfer::model::{
    Decision, Direction, EntryStatus, FailureReason, Outcome, TransferQueueView,
};
use crate::watcher::lemma_watch_set_stays_wf;
use vstd::prelude::*;

verus! {

/// A listing that failed changes no pane, whatever it was asked for: both panes
/// show the directory and the entries that they showed before.
pub proof fn theorem_failed_listing_keeps_the_panes(
    state: ActivityView,
    side: Side,
    path: Seq<Seq<char>>,
    purpose: ListPurpose,
    failure: ListingFailureView,
    now: i64,
)
    ensures
        state.on_listing(side, path, purpose, Err(failure), now).state.browser.local
            == state.browser.local,
        state.on_listing(side, path, purpose, Err(failure), now).state.browser.remote
            == state.browser.remote,
        purpose != ListPurpose::Search ==> state.on_listing(
            side,
            path,
            purpose,
            Err(failure),
            now,
        ).state.browser == state.browser,
        purpose != ListPurpose::Search ==> state.on_listing(
            side,
            path,
            purpose,
            Err(failure),
            now,
        ).state.log.last().level == LogLevel::Warn,
{
    reveal(ActivityView::on_listing);
}

/// Browsing in step that is turned on while both panes stand at the same place
/// below their homes brings up no popup, puts off no step and queues nothing.
pub proof fn theorem_sync_in_step_is_quiet(state: ActivityView)
    requires
        !state.browser.sync_browsing,
        state.browser.local.relative() is Some,
        state.browser.remote.relative() == state.browser.local.relative(),
    ensures
        state.on_ui_msg(UiMsg::ToggleSyncBrowsing).state.browser.sync_browsing,
        state.on_ui_msg(UiMsg::ToggleSyncBrowsing).state.popups == state.popups,
        state.on_ui_msg(UiMsg::ToggleSyncBrowsing).state.pending == state.pending,
        state.on_ui_msg(UiMsg::ToggleSyncBrowsing).state.transfer == state.transfer,
        state.on_ui_msg(UiMsg::ToggleSyncBrowsing).state.sync_queue == state.sync_queue,
        state.on_ui_msg(UiMsg::ToggleSyncBrowsing).effects.len() == 0,
{
    reveal(ActivityView::on_ui_msg);
    reveal(ActivityView::swapped);
}

/// A connection that is lost while an entry is in flight fails that entry for
/// that reason, pauses the queue and marks the connection as down; the next
/// draw then asks for an attempt to connect, with no word from the user.
pub proof fn theorem_lost_connection_reconnects(
    state: ActivityView,
    message: Seq<char>,
    now: i64,
    connected: bool,
)
    requires
        state.created,
        state.connection is Connected,
        !state.popups.contains(Id::FatalPopup),
        state.transfer.active() is Some,
    ensures
        ({
            let lost = state.on_transfer_done(
                Outcome::Failed(FailureReason::ConnectionLost),
                message,
                now,
            ).state;
            &&& lost.transfer.paused
            &&& lost.transfer.entries[state.transfer.active()->0].status == EntryStatus::Failed(
                FailureReason::ConnectionLost,
            )
            &&& lost.connection is Disconnected
            &&& lost.on_draw(connected).state.connection is Connecting
            &&& lost.on_draw(connected).effects == seq![
                EffectView::Terminal(TerminalOp::Render),
                EffectView::Connect,
            ]
        }),
{
    reveal(ActivityView::on_transfer_done);
    reveal(ActivityView::on_draw);
    lemma_first_open_from(state.transfer.entries, 0);
}

/// A watcher that holds as many paths as it may refuses one more and stays as
/// it is; the refusal is logged and shown.
pub proof fn theorem_full_watcher_refuses(state: ActivityView, path: Seq<Seq<char>>, now: i64)
    requires
        state.watcher is Some,
        state.watcher->0.wf(),
        state.watcher->0.paths.len() == state.watcher->0.max,
        !state.watcher->0.watches(path),
    ensures
        state.watch_toggled(path, now).state.watcher == state.watcher,
        state.watch_toggled(path, now).state.popups.contains(Id::ErrorPopup),
        state.watch_toggled(path, now).state.log.last().level == LogLevel::Error,
        state.watch_toggled(path, now).effects.len() == 0,
{
    reveal(ActivityView::watch_toggled);
}

/// Once the remote side is ruled out for good, no draw asks for a connection
/// until the user closes the fatal popup, which ends the activity.
pub proof fn theorem_fatal_stops_connecting(
    state: ActivityView,
    reason: Seq<char>,
    now: i64,
    connected: bool,
)
    ensures
        state.on_unreachable(reason, now).state.connection is Fatal,
        state.on_unreachable(reason, now).state.popups.contains(Id::FatalPopup),
        state.on_unreachable(reason, now).state.on_draw(connected).effects.len() == 0,
        state.on_unreachable(reason, now).state.on_ui_msg(
            UiMsg::CloseFatalPopup,
        ).state.exit_reason is Some,
{
    reveal(ActivityView::on_unreachable);
    reveal(ActivityView::on_draw);
    reveal(ActivityView::on_ui_msg);
}

/// Destruction asks for every step of the cleanup whatever state the activity
/// is in, and leaves an activity that starts nothing any more.
pub proof fn theorem_destroy_cleans_up(state: ActivityView, connected: bool, later: bool)
    ensures
        ActivityView::teardown(connected)[0] == EffectView::Terminal(TerminalOp::DisableRawMode),
        ActivityView::teardown(connected)[1] == EffectView::Terminal(TerminalOp::ClearScreen),
        connected ==> ActivityView::teardown(connected)[2] == EffectView::Disconnect,
        !state.destroyed().has_cache,
        state.destroyed().transfer.aborted,
        state.destroyed().on_draw(later) == state.destroyed().quiet(),
{
    reveal(ActivityView::on_draw);
}

proof fn lemma_noted_all_keeps_wf(
    state: ActivityView,
    events: Seq<crate::watcher::ChangeEventView>,
    now: i64,
)
    requires
        state.wf(),
    ensures
        state.noted_all(events, now).wf(),
    decreases events.len(),
{
    if events.len() > 0 {
        lemma_noted_all_keeps_wf(state, events.drop_last(), now);
    }
}

/// An activity is well-formed when it is made.
pub proof fn theorem_initial_is_wf(
    local_root: Seq<Seq<char>>,
    remote_root: Seq<Seq<char>>,
    sort_order: crate::sorting::FileSorting,
    show_hidden: bool,
    has_cache: bool,
    watcher_capacity: Option<usize>,
    now: i64,
)
    ensures
        ActivityView::initial(
            local_root,
            remote_root,
            sort_order,
            show_hidden,
            has_cache,
            watcher_capacity,
            now,
        ).wf(),
{
}

/// Every event leaves a well-formed activity well-formed: the panes stay in
/// order, the transfer queue keeps its order and its counts, the log stays
/// within its capacity and the watched paths within theirs.
pub proof fn theorem_step_keeps_wf(state: ActivityView, event: EventView, now: i64)
    requires
        state.wf(),
    ensures
        state.step(event, now).state.wf(),
{
    match event {
        EventView::Create { startup_error } => {
            reveal(ActivityView::on_create);
        },
        EventView::Draw { connected } => {
            reveal(ActivityView::on_draw);
        },
        EventView::Connected { result } => {
            reveal(ActivityView::on_connected);
        },
        EventView::Unreachable { reason } => {
            reveal(ActivityView::on_unreachable);
        },
        EventView::Listing { side, path, purpose, result } => {
            reveal(ActivityView::on_listing);
            match result {
                Ok(entries) => {
                    lemma_pane_stays_wf(
                        state.browser.pane(side),
                        path,
                        entries,
                        state.browser.pane(side).sort_order,
                    );
                    lemma_pane_stays_wf(
                        state.browser.pane(side),
                        state.browser.pane(side).root_path,
                        entries,
                        state.browser.pane(side).sort_order,
                    );
                },
                Err(_) => {},
            }
            if purpose == ListPurpose::Search && state.search is Some {
                let search = state.search->0;
                let fed = match result {
                    Ok(entries) => search.fed(entries),
                    Err(_) => search,
                };
                crate::sorting::theorem_arranged_is_the_listing_in_order(
                    fed.found,
                    state.browser.pane(fed.side).sort_order,
                );
            }
        },
        EventView::Message(msg) => {
            lemma_message_keeps_wf(state, msg, now);
        },
        EventView::Finished { side, result } => {
            reveal(ActivityView::on_finished);
        },
        EventView::DirectoryMade { result } => {
            reveal(ActivityView::on_directory_made);
        },
        EventView::TransferDone { outcome, message } => {
            reveal(ActivityView::on_transfer_done);
            lemma_finish_wf(state.transfer, outcome);
        },
        EventView::Expanded { children } => {
            reveal(ActivityView::on_expanded);
            lemma_expand_wf(state.transfer, children);
        },
        EventView::Watcher { events } => {
            reveal(ActivityView::on_watcher);
            lemma_noted_all_keeps_wf(state, events, now);
        },
        EventView::Tick => {
            reveal(ActivityView::sync_taken);
            reveal(ActivityView::executed);
            let first = state.sync_taken().state;
            if state.sync_queue.len() > 0 {
                match state.sync_queue[0] {
                    crate::watcher::SyncMutationView::Upload { entry, dest_dir } => {
                        lemma_enqueue_wf(
                            crate::activity::model::renewed(state.transfer),
                            seq![entry],
                            Direction::Upload,
                            dest_dir,
                            if dest_dir == state.cwd(Side::Remote) {
                                state.browser.remote.entries
                            } else {
                                Seq::empty()
                            },
                        );
                    },
                    _ => {},
                }
            }
            lemma_start_wf(first.transfer, now);
        },
    }
}

proof fn lemma_pending_msg_keeps_wf(state: ActivityView, msg: PendingActionMsg)
    requires
        state.wf(),
    ensures
        state.on_pending_msg(msg).state.wf(),
{
    reveal(ActivityView::on_pending_msg);
    lemma_resolve_wf(state.transfer, Decision::ReplaceAll);
    lemma_resolve_wf(state.transfer, Decision::ReplaceThis);
    lemma_resolve_wf(state.transfer, Decision::SkipAll);
    lemma_resolve_wf(state.transfer, Decision::SkipThis);
}

proof fn lemma_ui_msg_keeps_wf(state: ActivityView, msg: UiMsg)
    requires
        state.wf(),
    ensures
        state.on_ui_msg(msg).state.wf(),
{
    reveal(ActivityView::on_ui_msg);
    reveal(ActivityView::swapped);
    match msg {
        UiMsg::ChangeFileSorting(order) => {
            lemma_pane_stays_wf(
                state.browser.pane(state.focus),
                state.browser.pane(state.focus).root_path,
                state.browser.pane(state.focus).entries,
                order,
            );
        },
        _ => {},
    }
}

proof fn lemma_file_request_keeps_wf(state: ActivityView, msg: TransferMsgView)
    requires
        state.wf(),
    ensures
        state.on_file_request(msg).state.wf(),
{
    reveal(ActivityView::on_file_request);
}

proof fn lemma_browse_request_keeps_wf(state: ActivityView, msg: TransferMsgView, now: i64)
    requires
        state.wf(),
    ensures
        state.on_browse_request(msg, now).state.wf(),
{
    reveal(ActivityView::on_browse_request);
}

proof fn lemma_queueing_keeps_wf(state: ActivityView, entries: Seq<FileEntryView>)
    requires
        state.wf(),
    ensures
        state.queueing(entries).wf(),
{
    reveal(ActivityView::queueing);
    lemma_enqueue_wf(
        crate::activity::model::renewed(state.transfer),
        entries,
        crate::activity::model::direction_from(state.focus),
        state.cwd(state.focus.other()),
        state.browser.pane(state.focus.other()).entries,
    );
}

proof fn lemma_queue_request_keeps_wf(state: ActivityView, msg: TransferMsgView, now: i64)
    requires
        state.wf(),
    ensures
        state.on_queue_request(msg, now).state.wf(),
{
    reveal(ActivityView::on_queue_request);
    lemma_abort_wf(state.transfer);
    match state.selected() {
        Some(entry) => {
            match msg {
                TransferMsgView::SaveFileAs(name) => {
                    lemma_queueing_keeps_wf(
                        state.marked().unmounted(Id::SaveAsPopup),
                        seq![ActivityView::renamed(entry, name)],
                    );
                },
                _ => {},
            }
            lemma_queueing_keeps_wf(state.marked(), seq![entry]);
        },
        None => {},
    }
}

proof fn lemma_watch_toggled_keeps_wf(state: ActivityView, path: Seq<Seq<char>>, now: i64)
    requires
        state.wf(),
    ensures
        state.watch_toggled(path, now).state.wf(),
{
    reveal(ActivityView::watch_toggled);
    if state.watcher is Some {
        lemma_watch_set_stays_wf(state.watcher->0, path);
    }
}

proof fn lemma_watch_request_keeps_wf(state: ActivityView, msg: TransferMsgView, now: i64)
    requires
        state.wf(),
    ensures
        state.on_watch_request(msg, now).state.wf(),
{
    reveal(ActivityView::on_watch_request);
    let path = match state.selected() {
        Some(entry) => entry.absolute_path,
        None => state.cwd(state.focus),
    };
    lemma_watch_toggled_keeps_wf(state.marked().unmounted(Id::WatcherPopup), path, now);
    match msg {
        TransferMsgView::ToggleWatchFor(index) => {
            reveal(ActivityView::watch_lifted);
            if state.watcher is Some && index < state.watcher->0.paths.len() {
                lemma_watch_set_stays_wf(state.watcher->0, state.watcher->0.paths[index as int]);
            }
        },
        _ => {},
    }
}

/// Every message leaves a well-formed activity well-formed.
pub proof fn lemma_message_keeps_wf(state: ActivityView, msg: MsgView, now: i64)
    requires
        state.wf(),
    ensures
        state.on_message(msg, now).state.wf(),
{
    match msg {
        MsgView::PendingAction(m) => {
            lemma_pending_msg_keeps_wf(state, m);
        },
        MsgView::Ui(m) => {
            lemma_ui_msg_keeps_wf(state, m);
        },
        MsgView::Transfer(m) => {
            lemma_file_request_keeps_wf(state, m);
            lemma_browse_request_keeps_wf(state, m, now);
            lemma_queue_request_keeps_wf(state, m, now);
            lemma_watch_request_keeps_wf(state, m, now);
        },
        MsgView::Nothing => {},
    }
}

/// The activity after a course of events, each with the instant of its arrival.
pub open spec fn run(state: ActivityView, events: Seq<(EventView, i64)>) -> ActivityView
    decreases events.len(),
{
    if events.len() == 0 {
        state
    } else {
        run(state, events.drop_last()).step(events.last().0, events.last().1).state
    }
}

/// Along every course of events the activity stays well-formed, and with it the
/// transfer never counts more bytes or entries as done than it counts in all.
pub proof fn theorem_progress_stays_within_totals(state: ActivityView, events: Seq<(EventView, i64)>)
    requires
        state.wf(),
    ensures
        run(state, events).wf(),
        run(state, events).transfer.bytes_done() <= run(state, events).transfer.bytes_total(),
        run(state, events).transfer.file_done() <= run(state, events).transfer.file_total(),
        run(state, events).log.len() <= LOG_CAPACITY,
    decreases events.len(),
{
    if events.len() > 0 {
        theorem_progress_stays_within_totals(state, events.drop_last());
        theorem_step_keeps_wf(run(state, events.drop_last()), events.last().0, events.last().1);
    }
    lemma_done_within_total(run(state, events).transfer);
}

} // verus!
