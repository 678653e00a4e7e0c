//! The activity itself.

use crate::activity::effect::{effect_views, Effect, EffectView, ListPurpose, PairOp, PathOp, TerminalOp};
use crate::activity::event::{
    answer_view, change_views, listing_answer_view, optional_text, Event, ListingFailure,
};
use crate::activity::model::{
    renewed, ActivityView, ExitReason, };
use crate::browser::{Browser, Side, SyncToggle};
use crate::cache::{cache_name, cache_name_at, optional_str};
use crate::connection::{ConnectOutcome, ConnectionManager};
use crate::entry::{clone_entries, entries_view, FileEntry, FileEntryView};
use crate::log::{now_millis, LogLevel, LogRecord, LogRing};
use crate::message::{component_closed, component_shown, Id, Msg, PendingActionMsg, TransferMsg, UiMsg};
use crate::path::AbsPath;
use crate::pending::{Drained, PendingAction, PendingQueue, PendingStep};
use crate::popups::Popups;
use crate::search::Search;
use crate::sorting::FileSorting;
use crate::transfer::model::{Decision, Direction, FailureReason, Outcome, TransferAction};
use crate::transfer::queue::TransferQueue;
use crate::watcher::{propagate, ChangeEvent, SyncMutation, SyncMutationView, WatchSet};
use vstd::prelude::*;
use vstd::string::StringExecFns;

verus! {

/// `tempfile::TempDir`, the handle of a temporary directory. The activity
/// carries it from its creation to its destruction and never looks inside.
#[verifier::external_type_specification]
#[verifier::external_body]
pub struct ExTempDir(tempfile::TempDir);

/// The path of the temporary directory as text, by `TempDir::path` of the
/// tempfile crate. The operating system chose the path when the directory was
/// made, so nothing is claimed about it.
#[verifier::external_body]
fn dir_path(cache: &tempfile::TempDir) -> (path: String) {
    cache.path().to_string_lossy().into_owned()
}

/// The values of mutations, in order.
pub open spec fn mutation_views(mutations: Seq<SyncMutation>) -> Seq<SyncMutationView> {
    mutations.map_values(|m: SyncMutation| m@)
}

/// The file transfer activity: the one owner of the panes, the transfer queue,
/// the put-off steps, the watched paths, the connection state and the log.
#[derive(Debug)]
pub struct FileTransferActivity {
    exit_reason: Option<ExitReason>,
    created: bool,
    redraw: bool,
    browser: Browser,
    focus: Side,
    previous_local: Option<AbsPath>,
    previous_remote: Option<AbsPath>,
    log_records: LogRing,
    transfer: TransferQueue,
    pending: PendingQueue,
    next_chain: u64,
    connection: ConnectionManager,
    fswatcher: Option<WatchSet>,
    sync_queue: Vec<SyncMutation>,
    popups: Popups,
    /// Temporary directory for what is fetched to be opened.
    cache: Option<tempfile::TempDir>,
    search: Option<Search>,
}

impl View for FileTransferActivity {
    type V = ActivityView;

    closed spec fn view(&self) -> ActivityView {
        ActivityView {
            exit_reason: self.exit_reason,
            created: self.created,
            redraw: self.redraw,
            browser: self.browser@,
            focus: self.focus,
            previous_local: match self.previous_local {
                Some(path) => Some(path@),
                None => None,
            },
            previous_remote: match self.previous_remote {
                Some(path) => Some(path@),
                None => None,
            },
            log: self.log_records@,
            transfer: self.transfer@,
            pending: self.pending@,
            next_chain: self.next_chain,
            connection: self.connection@,
            watcher: match self.fswatcher {
                Some(set) => Some(set@),
                None => None,
            },
            sync_queue: mutation_views(self.sync_queue@),
            popups: self.popups@,
            has_cache: self.cache is Some,
            search: match self.search {
                Some(search) => Some(search@),
                None => None,
            },
        }
    }
}

impl FileTransferActivity {
    /// Every part of the activity is well-formed.
    pub closed spec fn wf(&self) -> bool {
        &&& self.browser.wf()
        &&& self.transfer.wf()
        &&& self.log_records.wf()
        &&& self.fswatcher is Some ==> self.fswatcher->0.wf()
    }

    /// What well-formedness says of the value.
    pub proof fn lemma_wf(&self)
        requires
            self.wf(),
        ensures
            self@.wf(),
    {
        self.browser.lemma_wf();
        self.transfer.lemma_wf();
        self.log_records.lemma_within_capacity();
        if self.fswatcher is Some {
            self.fswatcher->0.lemma_wf();
        }
    }

    /// An activity whose panes stand on the given directories, made at the
    /// instant `now`. `cache` is the temporary directory, where one could be
    /// made; `watcher_capacity` is the number of paths that may be watched,
    /// where change detection could be started. Without them the activity
    /// works on, with nothing cached and nothing watched; that nothing can be
    /// watched is logged as an error.
    pub fn new_at(
        local_root: AbsPath,
        remote_root: AbsPath,
        sort_order: FileSorting,
        show_hidden: bool,
        cache: Option<tempfile::TempDir>,
        watcher_capacity: Option<usize>,
        now: i64,
    ) -> (activity: FileTransferActivity)
        ensures
            activity.wf(),
            activity@ == ActivityView::initial(
                local_root@,
                remote_root@,
                sort_order,
                show_hidden,
                cache is Some,
                watcher_capacity,
                now,
            ),
    {
        let mut activity = FileTransferActivity {
            exit_reason: None,
            created: false,
            redraw: true,
            browser: Browser::new(local_root, remote_root, sort_order, show_hidden),
            focus: Side::Local,
            previous_local: None,
            previous_remote: None,
            log_records: LogRing::new(),
            transfer: TransferQueue::new(),
            pending: PendingQueue::new(),
            next_chain: 0,
            connection: ConnectionManager::new(),
            fswatcher: None,
            sync_queue: Vec::new(),
            popups: Popups::new(),
            cache,
            search: None,
        };
        assert(activity@.sync_queue =~= Seq::<SyncMutationView>::empty());
        match WatchSet::init(watcher_capacity) {
            Ok(set) => {
                activity.fswatcher = Some(set);
            },
            Err(_) => {
                activity.log_line(
                    now,
                    LogLevel::Error,
                    String::from_str("changes cannot be watched"),
                );
            },
        }
        activity
    }

    /// An activity whose panes stand on the given directories, made at the
    /// current time. Of the time nothing is known.
    pub fn new(
        local_root: AbsPath,
        remote_root: AbsPath,
        sort_order: FileSorting,
        show_hidden: bool,
        cache: Option<tempfile::TempDir>,
        watcher_capacity: Option<usize>,
    ) -> (activity: FileTransferActivity)
        ensures
            activity.wf(),
            exists|now: i64|
                activity@ == #[trigger] ActivityView::initial(
                    local_root@,
                    remote_root@,
                    sort_order,
                    show_hidden,
                    cache is Some,
                    watcher_capacity,
                    now,
                ),
    {
        FileTransferActivity::new_at(
            local_root,
            remote_root,
            sort_order,
            show_hidden,
            cache,
            watcher_capacity,
            now_millis(),
        )
    }

    /// The browser with its panes.
    pub fn browser(&self) -> (browser: &Browser)
        ensures
            browser@ == self@.browser,
            self.wf() ==> browser.wf(),
    {
        &self.browser
    }

    /// The local pane.
    pub fn local(&self) -> (pane: &crate::pane::Pane)
        ensures
            pane@ == self@.browser.local,
    {
        self.browser.local()
    }

    /// The remote pane.
    pub fn remote(&self) -> (pane: &crate::pane::Pane)
        ensures
            pane@ == self@.browser.remote,
    {
        self.browser.remote()
    }

    /// The pane of what a search found, while one is open.
    pub fn found(&self) -> (pane: Option<&crate::pane::Pane>)
        ensures
            pane is Some <==> self@.browser.found is Some,
            pane is Some ==> pane->0@ == self@.browser.found->0.pane,
    {
        match self.browser.found() {
            Some(found) => Some(&found.pane),
            None => None,
        }
    }

    /// The side that the user works on.
    pub fn focus(&self) -> (side: Side)
        ensures
            side == self@.focus,
    {
        self.focus
    }

    /// The log.
    pub fn log(&self) -> (ring: &LogRing)
        ensures
            ring@ == self@.log,
            self.wf() ==> ring.wf(),
    {
        &self.log_records
    }

    /// The transfer queue.
    pub fn transfer(&self) -> (queue: &TransferQueue)
        ensures
            queue@ == self@.transfer,
            self.wf() ==> queue.wf(),
    {
        &self.transfer
    }

    /// The put-off steps.
    pub fn pending(&self) -> (queue: &PendingQueue)
        ensures
            queue@ == self@.pending,
    {
        &self.pending
    }

    /// The connection manager.
    pub fn connection(&self) -> (manager: &ConnectionManager)
        ensures
            manager@ == self@.connection,
    {
        &self.connection
    }

    /// The watched paths, where change detection is to be had.
    pub fn watcher(&self) -> (set: Option<&WatchSet>)
        ensures
            set is Some <==> self@.watcher is Some,
            set is Some ==> set->0@ == self@.watcher->0,
    {
        self.fswatcher.as_ref()
    }

    /// Whether the component is up.
    pub fn is_mounted(&self, id: Id) -> (mounted: bool)
        ensures
            mounted == self@.popups.contains(id),
    {
        self.popups.is_mounted(id)
    }

    /// The number of mutations that wait to be carried over to the remote side.
    pub fn sync_backlog(&self) -> (n: usize)
        ensures
            n == self@.sync_queue.len(),
    {
        self.sync_queue.len()
    }

    /// Whether a search is under way.
    pub fn is_searching(&self) -> (searching: bool)
        ensures
            searching == self@.search is Some,
    {
        self.search.is_some()
    }

    /// Whether the view is to be drawn anew; asking clears the mark.
    pub fn take_redraw(&mut self) -> (redraw: bool)
        ensures
            redraw == old(self)@.redraw,
            final(self)@ == (ActivityView { redraw: false, ..old(self)@ }),
            old(self).wf() ==> final(self).wf(),
    {
        let redraw = self.redraw;
        self.redraw = false;
        redraw
    }

    /// Whether the activity wants to end, and why.
    pub fn will_umount(&self) -> (reason: Option<&ExitReason>)
        ensures
            reason is Some <==> self@.exit_reason is Some,
            reason is Some ==> *reason->0 == self@.exit_reason->0,
    {
        self.exit_reason.as_ref()
    }

    /// The directory that the pane of `side` shows.
    fn cwd(&self, side: Side) -> (path: AbsPath)
        ensures
            path@ == self@.cwd(side),
    {
        self.browser.pane(side).root_path().clone()
    }

    /// The entry under the cursor of the pane that the user works on.
    fn selected(&self) -> (entry: Option<FileEntry>)
        requires
            self.wf(),
        ensures
            entry is Some <==> self@.selected() is Some,
            entry is Some ==> entry->0@ == self@.selected()->0,
    {
        match self.browser.pane(self.focus).selected() {
            Some(entry) => Some(entry.clone()),
            None => None,
        }
    }

    /// Writes a line to the log.
    fn log_line(&mut self, now: i64, level: LogLevel, msg: String)
        requires
            old(self).wf(),
        ensures
            final(self).wf(),
            final(self)@ == old(self)@.logged(now, level, msg@),
    {
        self.log_records.push(LogRecord::at(now, level, msg));
    }

    /// Logs what went wrong and shows it.
    fn fail(&mut self, now: i64, msg: String)
        requires
            old(self).wf(),
        ensures
            final(self).wf(),
            final(self)@ == old(self)@.failed(now, msg@),
    {
        self.log_line(now, LogLevel::Error, msg);
        self.popups.mount(Id::ErrorPopup);
        self.redraw = true;
    }

    /// Puts a step off; it begins a chain of its own.
    fn chain(&mut self, step: PendingStep)
        requires
            old(self).wf(),
        ensures
            final(self).wf(),
            final(self)@ == old(self)@.chained(step@),
    {
        self.pending.push(PendingAction { chain: self.next_chain, step });
        self.next_chain = if self.next_chain == u64::MAX {
            0
        } else {
            self.next_chain + 1
        };
    }
}

/// No effect.
fn nothing() -> (effects: Vec<Effect>)
    ensures
        effect_views(effects@) == Seq::<EffectView>::empty(),
{
    let effects: Vec<Effect> = Vec::new();
    assert(effect_views(effects@) =~= Seq::<EffectView>::empty());
    effects
}

/// One effect.
fn only(effect: Effect) -> (effects: Vec<Effect>)
    ensures
        effect_views(effects@) == seq![effect@],
{
    let mut effects: Vec<Effect> = Vec::new();
    effects.push(effect);
    assert(effect_views(effects@) =~= seq![effect@]);
    effects
}

/// The effects of `first` followed by those of `second`.
fn joined(first: Vec<Effect>, second: Vec<Effect>) -> (effects: Vec<Effect>)
    ensures
        effect_views(effects@) == effect_views(first@) + effect_views(second@),
{
    let mut effects = first;
    let mut rest = second;
    let ghost a = effects@;
    let ghost b = rest@;
    effects.append(&mut rest);
    assert(effect_views(effects@) =~= effect_views(a) + effect_views(b));
    effects
}

/// The request to list a directory.
fn list(side: Side, path: AbsPath, purpose: ListPurpose) -> (effect: Effect)
    ensures
        effect@ == (EffectView::List { side, path: path@, purpose }),
{
    Effect::List { side, path, purpose }
}

impl FileTransferActivity {
    fn do_create(&mut self, startup_error: Option<String>, now: i64) -> (effects: Vec<Effect>)
        requires
            old(self).wf(),
        ensures
            final(self).wf(),
            final(self)@ == old(self)@.on_create(
                optional_text(startup_error),
                now,
            ).state,
            effect_views(effects@) == old(self)@.on_create(
                optional_text(startup_error),
                now,
            ).effects,
    {
        reveal(ActivityView::on_create);
        let here = self.cwd(Side::Local);
        self.created = true;
        match startup_error {
            Some(error) => {
                self.log_line(now, LogLevel::Error, error);
                self.popups.mount(Id::FatalPopup);
                self.redraw = true;
            },
            None => {},
        }
        let mut effects: Vec<Effect> = Vec::new();
        effects.push(Effect::Terminal(TerminalOp::ClearScreen));
        effects.push(Effect::Terminal(TerminalOp::EnableRawMode));
        effects.push(list(Side::Local, here, ListPurpose::Refresh));
        effects.push(Effect::Terminal(TerminalOp::SetupTextEditor));
        effects.push(Effect::Terminal(TerminalOp::InitView));
        assert(effect_views(effects@) =~= seq![
            EffectView::Terminal(TerminalOp::ClearScreen),
            EffectView::Terminal(TerminalOp::EnableRawMode),
            EffectView::List {
                side: Side::Local,
                path: old(self)@.cwd(Side::Local),
                purpose: ListPurpose::Refresh,
            },
            EffectView::Terminal(TerminalOp::SetupTextEditor),
            EffectView::Terminal(TerminalOp::InitView),
        ]);
        effects
    }

    fn do_draw(&mut self, connected: bool) -> (effects: Vec<Effect>)
        requires
            old(self).wf(),
        ensures
            final(self).wf(),
            final(self)@ == old(self)@.on_draw(connected).state,
            effect_views(effects@) == old(self)@.on_draw(connected).effects,
    {
        reveal(ActivityView::on_draw);
        if !self.created {
            return nothing();
        }
        let _ = self.connection.observe(connected);
        let fatal = self.popups.is_mounted(Id::FatalPopup);
        if self.connection.tick(fatal) {
            self.popups.mount(Id::WaitPopup);
            self.redraw = true;
            let mut effects: Vec<Effect> = Vec::new();
            effects.push(Effect::Terminal(TerminalOp::Render));
            effects.push(Effect::Connect);
            assert(effect_views(effects@) =~= seq![
                EffectView::Terminal(TerminalOp::Render),
                EffectView::Connect,
            ]);
            effects
        } else {
            nothing()
        }
    }

    fn do_connected(&mut self, result: Result<(), String>, now: i64) -> (effects: Vec<Effect>)
        requires
            old(self).wf(),
        ensures
            final(self).wf(),
            final(self)@ == old(self)@.on_connected(answer_view(result), now).state,
            effect_views(effects@) == old(self)@.on_connected(answer_view(result), now).effects,
    {
        reveal(ActivityView::on_connected);
        match self.connection.answer(result.is_ok()) {
            ConnectOutcome::Established => {
                self.transfer.resume();
                self.popups.umount(Id::WaitPopup);
                self.redraw = true;
                only(list(Side::Remote, self.cwd(Side::Remote), ListPurpose::Refresh))
            },
            ConnectOutcome::Failed => {
                match result {
                    Err(message) => {
                        self.log_line(now, LogLevel::Error, message);
                    },
                    Ok(_) => {},
                }
                self.popups.umount(Id::WaitPopup);
                self.redraw = true;
                nothing()
            },
            ConnectOutcome::Ignored => nothing(),
        }
    }

    fn do_unreachable(&mut self, reason: String, now: i64) -> (effects: Vec<Effect>)
        requires
            old(self).wf(),
        ensures
            final(self).wf(),
            final(self)@ == old(self)@.on_unreachable(reason@, now).state,
            effect_views(effects@) == old(self)@.on_unreachable(reason@, now).effects,
    {
        reveal(ActivityView::on_unreachable);
        self.connection.fail_for_good(reason.clone());
        self.log_line(now, LogLevel::Error, reason);
        self.popups.umount(Id::WaitPopup);
        self.popups.mount(Id::FatalPopup);
        self.redraw = true;
        nothing()
    }

    fn do_finished(&mut self, side: Side, result: Result<(), String>, now: i64) -> (effects: Vec<
        Effect,
    >)
        requires
            old(self).wf(),
        ensures
            final(self).wf(),
            final(self)@ == old(self)@.on_finished(side, answer_view(result), now).state,
            effect_views(effects@) == old(self)@.on_finished(side, answer_view(result), now).effects,
    {
        reveal(ActivityView::on_finished);
        match result {
            Ok(_) => only(list(side, self.cwd(side), ListPurpose::Refresh)),
            Err(message) => {
                self.fail(now, message);
                nothing()
            },
        }
    }

    fn do_transfer_done(&mut self, outcome: Outcome, message: String, now: i64) -> (effects: Vec<
        Effect,
    >)
        requires
            old(self).wf(),
        ensures
            final(self).wf(),
            final(self)@ == old(self)@.on_transfer_done(outcome, message@, now).state,
            effect_views(effects@) == old(self)@.on_transfer_done(outcome, message@, now).effects,
    {
        reveal(ActivityView::on_transfer_done);
        self.transfer.finish(outcome);
        self.redraw = true;
        match outcome {
            Outcome::Completed(_) => {},
            Outcome::Failed(reason) => {
                if reason == FailureReason::ConnectionLost {
                    let _ = self.connection.observe(false);
                }
                self.log_line(now, LogLevel::Error, message);
            },
        }
        nothing()
    }

    fn do_expanded(&mut self, children: Vec<FileEntry>) -> (effects: Vec<Effect>)
        requires
            old(self).wf(),
        ensures
            final(self).wf(),
            final(self)@ == old(self)@.on_expanded(entries_view(children@)).state,
            effect_views(effects@) == old(self)@.on_expanded(entries_view(children@)).effects,
    {
        reveal(ActivityView::on_expanded);
        self.transfer.expand(&children);
        self.redraw = true;
        nothing()
    }

    fn do_directory_made(&mut self, result: Result<(), String>, now: i64) -> (effects: Vec<Effect>)
        requires
            old(self).wf(),
        ensures
            final(self).wf(),
            final(self)@ == old(self)@.on_directory_made(answer_view(result), now).state,
            effect_views(effects@) == old(self)@.on_directory_made(answer_view(result), now).effects,
    {
        reveal(ActivityView::on_directory_made);
        let waits = match self.pending.head() {
            Some(action) => match action.step {
                PendingStep::MakeDirectoryThen { .. } => true,
                _ => false,
            },
            None => false,
        };
        if !waits {
            return nothing();
        }
        match result {
            Ok(_) => match self.pending.drain_one(true) {
                Some(Drained::Run(action)) => match action.step {
                    PendingStep::MakeDirectoryThen { side, path } => only(
                        list(side, path, ListPurpose::Enter),
                    ),
                    _ => nothing(),
                },
                _ => nothing(),
            },
            Err(message) => {
                let _ = self.pending.drain_one(false);
                self.fail(now, message);
                nothing()
            },
        }
    }
}

impl FileTransferActivity {
    fn set_previous(&mut self, side: Side, path: AbsPath)
        requires
            old(self).wf(),
        ensures
            final(self).wf(),
            final(self)@ == old(self)@.with_previous(side, path@),
    {
        match side {
            Side::Local => {
                self.previous_local = Some(path);
            },
            Side::Remote => {
                self.previous_remote = Some(path);
            },
        }
    }

    fn do_listing(
        &mut self,
        side: Side,
        path: AbsPath,
        purpose: ListPurpose,
        result: Result<Vec<FileEntry>, ListingFailure>,
        now: i64,
    ) -> (effects: Vec<Effect>)
        requires
            old(self).wf(),
        ensures
            final(self).wf(),
            final(self)@ == old(self)@.on_listing(
                side,
                path@,
                purpose,
                listing_answer_view(result),
                now,
            ).state,
            effect_views(effects@) == old(self)@.on_listing(
                side,
                path@,
                purpose,
                listing_answer_view(result),
                now,
            ).effects,
    {
        reveal(ActivityView::on_listing);
        match purpose {
            ListPurpose::Refresh => {
                match result {
                    Ok(entries) => {
                        let _ = self.browser.list(side, Ok(entries));
                        self.redraw = true;
                    },
                    Err(failure) => {
                        self.log_line(now, LogLevel::Warn, failure.message);
                        self.popups.mount(Id::ErrorPopup);
                        self.redraw = true;
                    },
                }
                nothing()
            },
            ListPurpose::Enter => match result {
                Ok(entries) => {
                    let was = self.cwd(side);
                    let target = self.browser.mirror(side, &path);
                    let in_step = self.browser.sync_browsing();
                    let _ = self.browser.enter_directory(side, path, Ok(entries));
                    self.set_previous(side, was);
                    self.redraw = true;
                    match target {
                        Some(target) => if in_step {
                            only(list(side.opposite(), target, ListPurpose::Mirror))
                        } else {
                            nothing()
                        },
                        None => nothing(),
                    }
                },
                Err(failure) => {
                    self.log_line(now, LogLevel::Warn, failure.message);
                    self.popups.mount(Id::ErrorPopup);
                    self.redraw = true;
                    nothing()
                },
            },
            ListPurpose::Mirror => {
                match result {
                    Ok(entries) => {
                        let was = self.cwd(side);
                        let _ = self.browser.enter_directory(side, path, Ok(entries));
                        self.set_previous(side, was);
                        self.redraw = true;
                    },
                    Err(failure) => {
                        self.log_line(now, LogLevel::Warn, failure.message);
                        self.popups.mount(Id::SyncBrowsingMkdirPopup);
                        self.chain(PendingStep::MakeDirectoryThen { side, path });
                        self.redraw = true;
                    },
                }
                nothing()
            },
            ListPurpose::Search => {
                let search = self.search.take();
                match search {
                    None => nothing(),
                    Some(mut search) => {
                        match result {
                            Ok(entries) => {
                                search.feed(&entries);
                            },
                            Err(_) => {},
                        }
                        let searched = search.side();
                        match search.next_directory(false) {
                            Some(dir) => {
                                self.search = Some(search);
                                only(list(searched, dir, ListPurpose::Search))
                            },
                            None => {
                                self.browser.open_found(searched, search.finish());
                                self.popups.umount(Id::WaitPopup);
                                self.popups.mount(Id::ExplorerFind);
                                self.redraw = true;
                                nothing()
                            },
                        }
                    },
                }
            },
        }
    }

    fn do_watcher(&mut self, events: Vec<ChangeEvent>, now: i64) -> (effects: Vec<Effect>)
        requires
            old(self).wf(),
        ensures
            final(self).wf(),
            final(self)@ == old(self)@.on_watcher(change_views(events@), now).state,
            effect_views(effects@) == old(self)@.on_watcher(change_views(events@), now).effects,
    {
        reveal(ActivityView::on_watcher);
        if self.fswatcher.is_none() {
            return nothing();
        }
        let ghost before = self@;
        let ghost all = change_views(events@);
        let in_step = self.browser.sync_browsing();
        let local = self.cwd(Side::Local);
        let remote = self.cwd(Side::Remote);
        let mut i: usize = 0;
        while i < events.len()
            invariant
                i <= events.len(),
                all == change_views(events@),
                self.wf(),
                self@ == before.noted_all(all.take(i as int), now),
                in_step == before.browser.sync_browsing,
                local@ == before.cwd(Side::Local),
                remote@ == before.cwd(Side::Remote),
                self@.browser == before.browser,
            decreases events.len() - i,
        {
            proof {
                assert(all.take(i + 1).drop_last() =~= all.take(i as int));
                assert(all.take(i + 1).last() == events[i as int]@);
            }
            match propagate(&events[i], in_step, &local, &remote) {
                Some(mutation) => {
                    let ghost was = mutation_views(self.sync_queue@);
                    self.sync_queue.push(mutation);
                    assert(mutation_views(self.sync_queue@) =~= was.push(mutation@));
                },
                None => {
                    let path = match &events[i] {
                        ChangeEvent::Created(entry) => &entry.absolute_path,
                        ChangeEvent::Modified(entry) => &entry.absolute_path,
                        ChangeEvent::Removed(path) => path,
                    };
                    self.log_line(now, LogLevel::Info, path.render());
                },
            }
            i += 1;
        }
        assert(all.take(events.len() as int) =~= all);
        nothing()
    }

    /// Starts a fresh queue where the old one has run its course.
    fn renew_queue(&mut self)
        requires
            old(self).wf(),
        ensures
            final(self).wf(),
            final(self)@ == (ActivityView { transfer: renewed(old(self)@.transfer), ..old(self)@ }),
    {
        if self.transfer.states().active_entry.is_none() && (self.transfer.is_complete()
            || self.transfer.is_aborted()) {
            self.transfer.clear();
        }
    }

    fn take_sync(&mut self) -> (effects: Vec<Effect>)
        requires
            old(self).wf(),
        ensures
            final(self).wf(),
            final(self)@ == old(self)@.sync_taken().state,
            effect_views(effects@) == old(self)@.sync_taken().effects,
    {
        reveal(ActivityView::sync_taken);
        if self.sync_queue.len() == 0 {
            return nothing();
        }
        let ghost before = self@;
        let mutation = self.sync_queue.remove(0);
        assert(mutation_views(self.sync_queue@) =~= before.sync_queue.drop_first());
        assert(mutation@ == before.sync_queue[0]);
        match mutation {
            SyncMutation::Upload { entry, dest_dir } => {
                let existing = if dest_dir.same(self.browser.remote().root_path()) {
                    clone_entries(self.browser.remote().entries())
                } else {
                    let none: Vec<FileEntry> = Vec::new();
                    assert(entries_view(none@) =~= Seq::<FileEntryView>::empty());
                    none
                };
                let mut selection: Vec<FileEntry> = Vec::new();
                selection.push(entry);
                assert(entries_view(selection@) =~= seq![entry@]);
                self.renew_queue();
                self.transfer.enqueue(&selection, Direction::Upload, &dest_dir, &existing);
                nothing()
            },
            SyncMutation::Remove { path } => only(
                Effect::OnPath { op: PathOp::Remove, side: Side::Remote, path },
            ),
        }
    }

    fn execute(&mut self, now: i64) -> (effects: Vec<Effect>)
        requires
            old(self).wf(),
        ensures
            final(self).wf(),
            final(self)@ == old(self)@.executed(now).state,
            effect_views(effects@) == old(self)@.executed(now).effects,
    {
        reveal(ActivityView::executed);
        let ghost before = self@;
        let conflicts = self.transfer.conflicts();
        let action = self.transfer.start_next(now);
        match action {
            TransferAction::CopyFile(i) | TransferAction::ExpandDirectory(i) => {
                self.popups.mount(Id::ProgressBarFull);
                self.popups.mount(Id::ProgressBarPartial);
                self.redraw = true;
                match self.transfer.get(i) {
                    Some(entry) => only(
                        Effect::Transfer {
                            index: i,
                            kind: entry.kind,
                            direction: entry.direction,
                            source: entry.source_path.clone(),
                            dest: entry.dest_path.clone(),
                        },
                    ),
                    None => nothing(),
                }
            },
            TransferAction::AwaitDecision(i) => {
                if !self.popups.is_mounted(Id::ReplacePopup) {
                    self.popups.mount(Id::ReplacePopup);
                    if conflicts > 1 {
                        self.popups.mount(Id::ReplacingFilesListPopup);
                    }
                    self.chain(PendingStep::AwaitConflictResolutionThen { index: i });
                    self.redraw = true;
                }
                nothing()
            },
            TransferAction::Complete | TransferAction::Halted => {
                if self.popups.is_mounted(Id::ProgressBarFull) {
                    self.popups.umount(Id::ProgressBarFull);
                    self.popups.umount(Id::ProgressBarPartial);
                    self.redraw = true;
                    let mut effects: Vec<Effect> = Vec::new();
                    effects.push(list(Side::Local, self.cwd(Side::Local), ListPurpose::Refresh));
                    effects.push(list(Side::Remote, self.cwd(Side::Remote), ListPurpose::Refresh));
                    assert(effect_views(effects@) =~= seq![
                        EffectView::List {
                            side: Side::Local,
                            path: before.cwd(Side::Local),
                            purpose: ListPurpose::Refresh,
                        },
                        EffectView::List {
                            side: Side::Remote,
                            path: before.cwd(Side::Remote),
                            purpose: ListPurpose::Refresh,
                        },
                    ]);
                    effects
                } else {
                    nothing()
                }
            },
            _ => nothing(),
        }
    }

    fn do_tick(&mut self, now: i64) -> (effects: Vec<Effect>)
        requires
            old(self).wf(),
        ensures
            final(self).wf(),
            final(self)@ == old(self)@.on_tick(now).state,
            effect_views(effects@) == old(self)@.on_tick(now).effects,
    {
        let first = self.take_sync();
        let second = self.execute(now);
        joined(first, second)
    }

    fn do_pending_msg(&mut self, msg: PendingActionMsg) -> (effects: Vec<Effect>)
        requires
            old(self).wf(),
        ensures
            final(self).wf(),
            final(self)@ == old(self)@.on_pending_msg(msg).state,
            effect_views(effects@) == old(self)@.on_pending_msg(msg).effects,
    {
        reveal(ActivityView::on_pending_msg);
        let plural = self.popups.is_mounted(Id::ReplacingFilesListPopup);
        let (awaits_answer, awaits_directory) = match self.pending.head() {
            Some(action) => match action.step {
                PendingStep::MakeDirectoryThen { .. } => (false, true),
                PendingStep::AwaitConflictResolutionThen { .. } => (true, false),
            },
            None => (false, false),
        };
        match msg {
            PendingActionMsg::CloseReplacePopups | PendingActionMsg::TransferPendingFile => {
                let decision = if msg == PendingActionMsg::TransferPendingFile {
                    if plural {
                        Decision::ReplaceAll
                    } else {
                        Decision::ReplaceThis
                    }
                } else {
                    if plural {
                        Decision::SkipAll
                    } else {
                        Decision::SkipThis
                    }
                };
                let _ = self.transfer.resolve(decision);
                if awaits_answer {
                    let _ = self.pending.drain_one(true);
                }
                self.popups.umount(Id::ReplacePopup);
                self.popups.umount(Id::ReplacingFilesListPopup);
                self.redraw = true;
                nothing()
            },
            PendingActionMsg::CloseSyncBrowsingMkdirPopup => {
                if awaits_directory {
                    let _ = self.pending.drain_one(false);
                }
                self.popups.umount(Id::SyncBrowsingMkdirPopup);
                self.redraw = true;
                nothing()
            },
            PendingActionMsg::MakePendingDirectory => {
                self.popups.umount(Id::SyncBrowsingMkdirPopup);
                self.redraw = true;
                match self.pending.head() {
                    Some(action) => match &action.step {
                        PendingStep::MakeDirectoryThen { side, path } => only(
                            Effect::OnPath {
                                op: PathOp::MakePendingDirectory,
                                side: *side,
                                path: path.clone(),
                            },
                        ),
                        _ => nothing(),
                    },
                    None => nothing(),
                }
            },
        }
    }

    fn swap_components(&mut self, msg: UiMsg)
        requires
            old(self).wf(),
        ensures
            final(self).wf(),
            final(self)@ == old(self)@.swapped(msg),
            final(self)@ == (ActivityView {
                popups: final(self)@.popups,
                redraw: true,
                ..old(self)@
            }),
    {
        reveal(ActivityView::swapped);
        match component_closed(msg) {
            Some(id) => {
                self.popups.umount(id);
            },
            None => {},
        }
        match component_shown(msg) {
            Some(id) => {
                self.popups.mount(id);
            },
            None => {},
        }
        self.redraw = true;
    }

    fn do_ui_msg(&mut self, msg: UiMsg) -> (effects: Vec<Effect>)
        requires
            old(self).wf(),
        ensures
            final(self).wf(),
            final(self)@ == old(self)@.on_ui_msg(msg).state,
            effect_views(effects@) == old(self)@.on_ui_msg(msg).effects,
    {
        reveal(ActivityView::on_ui_msg);
        self.swap_components(msg);
        match msg {
            UiMsg::ChangeFileSorting(order) => {
                self.browser.set_sorting(self.focus, order);
            },
            UiMsg::ChangeTransferWindow => {
                self.focus = self.focus.opposite();
            },
            UiMsg::CloseFatalPopup | UiMsg::Disconnect => {
                self.exit_reason = Some(ExitReason::Disconnect);
            },
            UiMsg::Quit => {
                self.exit_reason = Some(ExitReason::Quit);
            },
            UiMsg::CloseFindExplorer => {
                self.browser.close_found();
            },
            UiMsg::ToggleHiddenFiles => {
                self.browser.toggle_hidden(self.focus);
            },
            UiMsg::ToggleSyncBrowsing => {
                match self.browser.toggle_sync_browsing() {
                    SyncToggle::Diverged { target } => {
                        self.popups.mount(Id::SyncBrowsingMkdirPopup);
                        self.chain(PendingStep::MakeDirectoryThen { side: Side::Remote, path: target });
                    },
                    _ => {},
                }
            },
            _ => {},
        }
        nothing()
    }
}

impl FileTransferActivity {
    /// Queues the entries for the side across from the one the user works on.
    fn queue_entries(&mut self, entries: Vec<FileEntry>)
        requires
            old(self).wf(),
        ensures
            final(self).wf(),
            final(self)@ == old(self)@.queueing(entries_view(entries@)),
    {
        reveal(ActivityView::queueing);
        let across = self.focus.opposite();
        let dest_dir = self.cwd(across);
        let existing = clone_entries(self.browser.pane(across).entries());
        let direction = match self.focus {
            Side::Local => Direction::Upload,
            Side::Remote => Direction::Download,
        };
        self.renew_queue();
        self.transfer.enqueue(&entries, direction, &dest_dir, &existing);
    }

    /// Toggles the watch on a local path.
    fn toggle_watch(&mut self, path: AbsPath, now: i64) -> (effects: Vec<Effect>)
        requires
            old(self).wf(),
        ensures
            final(self).wf(),
            final(self)@ == old(self)@.watch_toggled(path@, now).state,
            effect_views(effects@) == old(self)@.watch_toggled(path@, now).effects,
    {
        reveal(ActivityView::watch_toggled);
        let watcher = self.fswatcher.take();
        match watcher {
            None => {
                self.fail(now, String::from_str("changes cannot be watched"));
                nothing()
            },
            Some(mut set) => {
                if set.is_watched(&path) {
                    let _ = set.unwatch(&path);
                    self.fswatcher = Some(set);
                    only(Effect::OnPath { op: PathOp::Unwatch, side: Side::Local, path })
                } else {
                    let answer = set.watch(path.clone());
                    self.fswatcher = Some(set);
                    match answer {
                        Ok(_) => only(
                            Effect::OnPath { op: PathOp::Watch, side: Side::Local, path },
                        ),
                        Err(_) => {
                            self.fail(now, String::from_str("no more paths can be watched"));
                            nothing()
                        },
                    }
                }
            },
        }
    }

    /// Lifts the watch on the path at the index of the watched paths.
    fn unwatch_at(&mut self, index: usize) -> (effects: Vec<Effect>)
        requires
            old(self).wf(),
        ensures
            final(self).wf(),
            final(self)@ == old(self)@.watch_lifted(index).state,
            effect_views(effects@) == old(self)@.watch_lifted(index).effects,
    {
        reveal(ActivityView::watch_lifted);
        let watcher = self.fswatcher.take();
        match watcher {
            None => nothing(),
            Some(mut set) => {
                let path = match set.get(index) {
                    Some(path) => Some(path.clone()),
                    None => None,
                };
                match path {
                    Some(path) => {
                        let _ = set.unwatch(&path);
                        self.fswatcher = Some(set);
                        only(Effect::OnPath { op: PathOp::Unwatch, side: Side::Local, path })
                    },
                    None => {
                        self.fswatcher = Some(set);
                        nothing()
                    },
                }
            },
        }
    }

    fn file_request(&mut self, msg: TransferMsg) -> (effects: Vec<Effect>)
        requires
            old(self).wf(),
        ensures
            final(self).wf(),
            final(self)@ == old(self)@.on_file_request(msg@).state,
            effect_views(effects@) == old(self)@.on_file_request(msg@).effects,
    {
        reveal(ActivityView::on_file_request);
        let side = self.focus;
        let cwd = self.cwd(side);
        let selected = self.selected();
        self.redraw = true;
        match msg {
            TransferMsg::CopyFileTo(dest) => {
                self.popups.umount(Id::CopyPopup);
                match selected {
                    Some(entry) => only(
                        Effect::OnPair {
                            op: PairOp::Copy,
                            side,
                            from: entry.absolute_path,
                            to: cwd.resolve(dest.as_str()),
                        },
                    ),
                    None => nothing(),
                }
            },
            TransferMsg::CreateSymlink(name) => {
                self.popups.umount(Id::SymlinkPopup);
                match selected {
                    Some(entry) => only(
                        Effect::OnPair {
                            op: PairOp::Symlink,
                            side,
                            from: cwd.resolve(name.as_str()),
                            to: entry.absolute_path,
                        },
                    ),
                    None => nothing(),
                }
            },
            TransferMsg::DeleteFile => {
                self.popups.umount(Id::DeletePopup);
                match selected {
                    Some(entry) => only(
                        Effect::OnPath { op: PathOp::Remove, side, path: entry.absolute_path },
                    ),
                    None => nothing(),
                }
            },
            TransferMsg::ExecuteCmd(command) => {
                self.popups.umount(Id::ExecPopup);
                only(Effect::Exec { side, command })
            },
            TransferMsg::Mkdir(name) => {
                self.popups.umount(Id::MkdirPopup);
                only(
                    Effect::OnPath {
                        op: PathOp::MakeDirectory,
                        side,
                        path: cwd.resolve(name.as_str()),
                    },
                )
            },
            TransferMsg::NewFile(name) => {
                self.popups.umount(Id::NewfilePopup);
                only(Effect::OnPath { op: PathOp::NewFile, side, path: cwd.resolve(name.as_str()) })
            },
            TransferMsg::OpenFile => match selected {
                Some(entry) => only(
                    Effect::Open { side, path: entry.absolute_path, with: None, as_text: false },
                ),
                None => nothing(),
            },
            TransferMsg::OpenFileWith(program) => {
                self.popups.umount(Id::OpenWithPopup);
                match selected {
                    Some(entry) => only(
                        Effect::Open {
                            side,
                            path: entry.absolute_path,
                            with: Some(program),
                            as_text: false,
                        },
                    ),
                    None => nothing(),
                }
            },
            TransferMsg::OpenTextFile => match selected {
                Some(entry) => only(
                    Effect::Open { side, path: entry.absolute_path, with: None, as_text: true },
                ),
                None => nothing(),
            },
            TransferMsg::RenameFile(name) => {
                self.popups.umount(Id::RenamePopup);
                match selected {
                    Some(entry) => only(
                        Effect::OnPair {
                            op: PairOp::Rename,
                            side,
                            from: entry.absolute_path,
                            to: cwd.resolve(name.as_str()),
                        },
                    ),
                    None => nothing(),
                }
            },
            _ => nothing(),
        }
    }

    fn browse_request(&mut self, msg: TransferMsg, now: i64) -> (effects: Vec<Effect>)
        requires
            old(self).wf(),
        ensures
            final(self).wf(),
            final(self)@ == old(self)@.on_browse_request(msg@, now).state,
            effect_views(effects@) == old(self)@.on_browse_request(msg@, now).effects,
    {
        reveal(ActivityView::on_browse_request);
        let side = self.focus;
        let cwd = self.cwd(side);
        let selected = self.selected();
        self.redraw = true;
        match msg {
            TransferMsg::EnterDirectory => match selected {
                Some(entry) => if entry.is_dir() {
                    only(list(side, entry.absolute_path, ListPurpose::Enter))
                } else {
                    self.fail(now, String::from_str("the entry is not a directory"));
                    nothing()
                },
                None => nothing(),
            },
            TransferMsg::GoTo(path) => {
                self.popups.umount(Id::GotoPopup);
                only(list(side, cwd.resolve(path.as_str()), ListPurpose::Enter))
            },
            TransferMsg::GoToParentDirectory => match cwd.parent() {
                Some(up) => only(list(side, up, ListPurpose::Enter)),
                None => nothing(),
            },
            TransferMsg::GoToPreviousDirectory => {
                let previous = match side {
                    Side::Local => &self.previous_local,
                    Side::Remote => &self.previous_remote,
                };
                match previous {
                    Some(path) => only(list(side, path.clone(), ListPurpose::Enter)),
                    None => nothing(),
                }
            },
            TransferMsg::ReloadDir => only(list(side, cwd, ListPurpose::Refresh)),
            TransferMsg::SearchFile(pattern) => {
                let mut search = Search::start(side, pattern, cwd);
                assert(seq![cwd@].drop_last() =~= Seq::<Seq<Seq<char>>>::empty());
                assert(seq![cwd@].last() == cwd@);
                match search.next_directory(false) {
                    Some(dir) => {
                        self.search = Some(search);
                        self.popups.umount(Id::FindPopup);
                        self.popups.mount(Id::WaitPopup);
                        only(list(side, dir, ListPurpose::Search))
                    },
                    None => nothing(),
                }
            },
            _ => nothing(),
        }
    }

    fn queue_request(&mut self, msg: TransferMsg, now: i64) -> (effects: Vec<Effect>)
        requires
            old(self).wf(),
        ensures
            final(self).wf(),
            final(self)@ == old(self)@.on_queue_request(msg@, now).state,
            effect_views(effects@) == old(self)@.on_queue_request(msg@, now).effects,
    {
        reveal(ActivityView::on_queue_request);
        let side = self.focus;
        let cwd = self.cwd(side);
        let selected = self.selected();
        self.redraw = true;
        match msg {
            TransferMsg::AbortTransfer => {
                self.transfer.abort();
                if self.search.is_some() {
                    self.popups.umount(Id::WaitPopup);
                }
                self.search = None;
                nothing()
            },
            TransferMsg::SaveFileAs(name) => {
                self.popups.umount(Id::SaveAsPopup);
                match selected {
                    Some(entry) => {
                        let mut renamed = entry;
                        renamed.name = name;
                        let mut entries: Vec<FileEntry> = Vec::new();
                        entries.push(renamed);
                        assert(entries_view(entries@) =~= seq![renamed@]);
                        self.queue_entries(entries);
                    },
                    None => {},
                }
                nothing()
            },
            TransferMsg::TransferFile => {
                match selected {
                    Some(entry) => {
                        let mut entries: Vec<FileEntry> = Vec::new();
                        entries.push(entry);
                        assert(entries_view(entries@) =~= seq![entry@]);
                        self.queue_entries(entries);
                    },
                    None => {},
                }
                nothing()
            },
            _ => nothing(),
        }
    }

    fn watch_request(&mut self, msg: TransferMsg, now: i64) -> (effects: Vec<Effect>)
        requires
            old(self).wf(),
        ensures
            final(self).wf(),
            final(self)@ == old(self)@.on_watch_request(msg@, now).state,
            effect_views(effects@) == old(self)@.on_watch_request(msg@, now).effects,
    {
        reveal(ActivityView::on_watch_request);
        let side = self.focus;
        let cwd = self.cwd(side);
        let selected = self.selected();
        self.redraw = true;
        match msg {
            TransferMsg::ToggleWatch => {
                match side {
                    Side::Remote => {
                        self.fail(now, String::from_str("only local paths can be watched"));
                        self.popups.umount(Id::WatcherPopup);
                        nothing()
                    },
                    Side::Local => {
                        self.popups.umount(Id::WatcherPopup);
                        let path = match selected {
                            Some(entry) => entry.absolute_path,
                            None => cwd,
                        };
                        self.toggle_watch(path, now)
                    },
                }
            },
            TransferMsg::ToggleWatchFor(index) => self.unwatch_at(index),
            _ => nothing(),
        }
    }

    fn do_transfer_msg(&mut self, msg: TransferMsg, now: i64) -> (effects: Vec<Effect>)
        requires
            old(self).wf(),
        ensures
            final(self).wf(),
            final(self)@ == old(self)@.on_transfer_msg(msg@, now).state,
            effect_views(effects@) == old(self)@.on_transfer_msg(msg@, now).effects,
    {
        match msg {
            TransferMsg::CopyFileTo(_)
            | TransferMsg::CreateSymlink(_)
            | TransferMsg::DeleteFile
            | TransferMsg::ExecuteCmd(_)
            | TransferMsg::Mkdir(_)
            | TransferMsg::NewFile(_)
            | TransferMsg::OpenFile
            | TransferMsg::OpenFileWith(_)
            | TransferMsg::OpenTextFile
            | TransferMsg::RenameFile(_) => self.file_request(msg),
            TransferMsg::EnterDirectory
            | TransferMsg::GoTo(_)
            | TransferMsg::GoToParentDirectory
            | TransferMsg::GoToPreviousDirectory
            | TransferMsg::ReloadDir
            | TransferMsg::SearchFile(_) => self.browse_request(msg, now),
            TransferMsg::AbortTransfer
            | TransferMsg::SaveFileAs(_)
            | TransferMsg::TransferFile => self.queue_request(msg, now),
            TransferMsg::ToggleWatch | TransferMsg::ToggleWatchFor(_) => self.watch_request(msg, now),
        }
    }
}

/// What is left to do once the activity is destroyed.
#[derive(Debug)]
pub struct Teardown {
    /// The temporary directory, to be closed; it is handed out once.
    pub cache: Option<tempfile::TempDir>,
    /// What else is to be done, in order. Each step is to be tried whether or
    /// not the others went through.
    pub effects: Vec<Effect>,
}

impl FileTransferActivity {
    /// Takes in an event that arrived at the instant `now`, and says what the
    /// host is to do.
    pub fn handle_at(&mut self, event: Event, now: i64) -> (effects: Vec<Effect>)
        requires
            old(self).wf(),
        ensures
            final(self).wf(),
            final(self)@ == old(self)@.step(event@, now).state,
            effect_views(effects@) == old(self)@.step(event@, now).effects,
    {
        match event {
            Event::Create { startup_error } => self.do_create(startup_error, now),
            Event::Draw { connected } => self.do_draw(connected),
            Event::Connected { result } => self.do_connected(result, now),
            Event::Unreachable { reason } => self.do_unreachable(reason, now),
            Event::Listing { side, path, purpose, result } => self.do_listing(
                side,
                path,
                purpose,
                result,
                now,
            ),
            Event::Message(msg) => match msg {
                Msg::PendingAction(m) => self.do_pending_msg(m),
                Msg::Transfer(m) => self.do_transfer_msg(m, now),
                Msg::Ui(m) => self.do_ui_msg(m),
                Msg::Nothing => nothing(),
            },
            Event::Finished { side, result } => self.do_finished(side, result, now),
            Event::DirectoryMade { result } => self.do_directory_made(result, now),
            Event::TransferDone { outcome, message } => self.do_transfer_done(outcome, message, now),
            Event::Expanded { children } => self.do_expanded(children),
            Event::Watcher { events } => self.do_watcher(events, now),
            Event::Tick => self.do_tick(now),
        }
    }

    /// Takes in an event at the current time, and says what the host is to do.
    /// Of the time nothing is known.
    pub fn handle(&mut self, event: Event) -> (effects: Vec<Effect>)
        requires
            old(self).wf(),
        ensures
            final(self).wf(),
            exists|now: i64|
                final(self)@ == (#[trigger] old(self)@.step(event@, now)).state && effect_views(
                    effects@,
                ) == old(self)@.step(event@, now).effects,
    {
        let now = now_millis();
        self.handle_at(event, now)
    }

    /// Processes one message of the user interface.
    pub fn update(&mut self, msg: Msg) -> (effects: Vec<Effect>)
        requires
            old(self).wf(),
        ensures
            final(self).wf(),
            exists|now: i64|
                final(self)@ == (#[trigger] old(self)@.on_message(msg@, now)).state && effect_views(
                    effects@,
                ) == old(self)@.on_message(msg@, now).effects,
    {
        let now = now_millis();
        let ghost before = self@;
        let effects = self.handle_at(Event::Message(msg), now);
        assert(before.step(crate::activity::event::EventView::Message(msg@), now)
            == before.on_message(msg@, now));
        effects
    }

    /// Creates the activity: the terminal is to be cleared and put in raw
    /// mode, the local directory listed, the text editor and the view set up.
    /// An error from before is logged and shown in the fatal popup.
    pub fn on_create(&mut self, startup_error: Option<String>) -> (effects: Vec<Effect>)
        requires
            old(self).wf(),
        ensures
            final(self).wf(),
            exists|now: i64|
                final(self)@ == (#[trigger] old(self)@.on_create(
                    optional_text(startup_error),
                    now,
                )).state && effect_views(effects@) == old(self)@.on_create(
                    optional_text(startup_error),
                    now,
                ).effects,
    {
        let now = now_millis();
        self.do_create(startup_error, now)
    }

    /// Begins a draw. `connected` tells whether the remote side answers. While
    /// the activity is disconnected, and unless the fatal popup is up, it
    /// shows that it connects and asks for one attempt.
    pub fn on_draw(&mut self, connected: bool) -> (effects: Vec<Effect>)
        requires
            old(self).wf(),
        ensures
            final(self).wf(),
            final(self)@ == old(self)@.on_draw(connected).state,
            effect_views(effects@) == old(self)@.on_draw(connected).effects,
    {
        self.do_draw(connected)
    }

    /// Notes that `written` bytes of the entry in flight are across, and says
    /// whether the copy may go on.
    pub fn on_progress(&mut self, written: u64) -> (go_on: bool)
        requires
            old(self).wf(),
        ensures
            final(self).wf(),
            final(self)@ == (ActivityView {
                transfer: old(self)@.transfer.progress(written),
                redraw: true,
                ..old(self)@
            }),
            go_on == !old(self)@.transfer.aborted,
    {
        self.redraw = true;
        self.transfer.report_progress(written)
    }

    /// Destroys the activity. The queue is stopped and a search dropped; the
    /// temporary directory is handed out to be closed; raw mode is to be left,
    /// the screen cleared and the connection closed where it stands.
    pub fn on_destroy(&mut self, connected: bool) -> (teardown: Teardown)
        requires
            old(self).wf(),
        ensures
            final(self).wf(),
            final(self)@ == old(self)@.destroyed(),
            teardown.cache is Some <==> old(self)@.has_cache,
            effect_views(teardown.effects@) == ActivityView::teardown(connected),
    {
        self.created = false;
        self.transfer.abort();
        self.search = None;
        let _ = self.connection.disconnect();
        let cache = self.cache.take();
        let mut effects: Vec<Effect> = Vec::new();
        effects.push(Effect::Terminal(TerminalOp::DisableRawMode));
        effects.push(Effect::Terminal(TerminalOp::ClearScreen));
        if connected {
            effects.push(Effect::Disconnect);
        }
        assert(effect_views(effects@) =~= ActivityView::teardown(connected));
        Teardown { cache, effects }
    }

    /// The path of the temporary directory; none without a cache.
    pub fn cache_dir(&self) -> (path: Option<String>)
        ensures
            path is Some <==> self@.has_cache,
    {
        match &self.cache {
            Some(cache) => Some(dir_path(cache)),
            None => None,
        }
    }

    /// The name for a file in the cache at the instant `millis`; none without
    /// a cache.
    pub fn cache_tmp_name_at(&self, name: &str, file_type: Option<&str>, millis: i64) -> (cached:
        Option<String>)
        ensures
            cached is Some <==> self@.has_cache,
            cached is Some ==> cached->0@ == cache_name(
                name@,
                millis,
                optional_str(file_type),
            ),
    {
        if self.cache.is_some() {
            Some(cache_name_at(name, millis, file_type))
        } else {
            None
        }
    }

    /// The name for a file in the cache at the current time; none without a
    /// cache. Of the time nothing is known.
    pub fn get_cache_tmp_name(&self, name: &str, file_type: Option<&str>) -> (cached: Option<String>)
        ensures
            cached is Some <==> self@.has_cache,
            cached is Some ==> exists|millis: i64|
                cached->0@ == #[trigger] cache_name(
                    name@,
                    millis,
                    optional_str(file_type),
                ),
    {
        self.cache_tmp_name_at(name, file_type, now_millis())
    }
}

} // verus!
