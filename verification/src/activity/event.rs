//! What the host reports to the activity.

use crate::activity::effect::ListPurpose;
use crate::browser::Side;
use crate::entry::{entries_view, FileEntry, FileEntryView};
use crate::message::{Msg, MsgView};
use crate::pane::BrowseError;
use crate::path::AbsPath;
use crate::transfer::model::Outcome;
use crate::watcher::{ChangeEvent, ChangeEventView};
use vstd::prelude::*;

verus! {

/// A listing that failed.
#[derive(Debug)]
pub struct ListingFailure {
    pub kind: BrowseError,
    pub message: String,
}

/// The mathematical value of a [`ListingFailure`].
pub struct ListingFailureView {
    pub kind: BrowseError,
    pub message: Seq<char>,
}

impl View for ListingFailure {
    type V = ListingFailureView;

    open spec fn view(&self) -> ListingFailureView {
        ListingFailureView { kind: self.kind, message: self.message@ }
    }
}

/// One report of the host.
#[derive(Debug)]
#[allow(inconsistent_fields)]
pub enum Event {
    /// The activity is created; `startup_error` tells what went wrong before.
    Create { startup_error: Option<String> },
    /// A draw begins; `connected` tells whether the remote side answers.
    Draw { connected: bool },
    /// An attempt to connect ended.
    Connected { result: Result<(), String> },
    /// An attempt to connect ended with an error that rules the remote side
    /// out for good.
    Unreachable { reason: String },
    /// A listing that was asked for ended.
    Listing { side: Side, path: AbsPath, purpose: ListPurpose, result: Result<Vec<FileEntry>, ListingFailure> },
    /// A message of the user interface.
    Message(Msg),
    /// An operation on files of one side ended.
    Finished { side: Side, result: Result<(), String> },
    /// The making of the directory that a put-off step waits for ended.
    DirectoryMade { result: Result<(), String> },
    /// The copy of the queue entry in flight ended.
    TransferDone { outcome: Outcome, message: String },
    /// The directory in flight was made and its source listed.
    Expanded { children: Vec<FileEntry> },
    /// The watcher saw changes.
    Watcher { events: Vec<ChangeEvent> },
    /// The queues may take their next step.
    Tick,
}

/// The mathematical value of an [`Event`].
#[allow(inconsistent_fields)]
pub enum EventView {
    Create { startup_error: Option<Seq<char>> },
    Draw { connected: bool },
    Connected { result: Result<(), Seq<char>> },
    Unreachable { reason: Seq<char> },
    Listing {
        side: Side,
        path: Seq<Seq<char>>,
        purpose: ListPurpose,
        result: Result<Seq<FileEntryView>, ListingFailureView>,
    },
    Message(MsgView),
    Finished { side: Side, result: Result<(), Seq<char>> },
    DirectoryMade { result: Result<(), Seq<char>> },
    TransferDone { outcome: Outcome, message: Seq<char> },
    Expanded { children: Seq<FileEntryView> },
    Watcher { events: Seq<ChangeEventView> },
    Tick,
}

/// The value of a text that may be missing.
pub open spec fn optional_text(text: Option<String>) -> Option<Seq<char>> {
    match text {
        Some(text) => Some(text@),
        None => None,
    }
}

/// The value of an answer that carries a text where it failed.
pub open spec fn answer_view(result: Result<(), String>) -> Result<(), Seq<char>> {
    match result {
        Ok(_) => Ok(()),
        Err(message) => Err(message@),
    }
}

/// The value of the answer to a listing.
pub open spec fn listing_answer_view(result: Result<Vec<FileEntry>, ListingFailure>) -> Result<
    Seq<FileEntryView>,
    ListingFailureView,
> {
    match result {
        Ok(entries) => Ok(entries_view(entries@)),
        Err(failure) => Err(failure@),
    }
}

/// The values of change events, in order.
pub open spec fn change_views(events: Seq<ChangeEvent>) -> Seq<ChangeEventView> {
    events.map_values(|e: ChangeEvent| e@)
}

impl View for Event {
    type V = EventView;

    open spec fn view(&self) -> EventView {
        match self {
            Event::Create { startup_error } => EventView::Create {
                startup_error: optional_text(*startup_error),
            },
            Event::Draw { connected } => EventView::Draw { connected: *connected },
            Event::Connected { result } => EventView::Connected { result: answer_view(*result) },
            Event::Unreachable { reason } => EventView::Unreachable { reason: reason@ },
            Event::Listing { side, path, purpose, result } => EventView::Listing {
                side: *side,
                path: path@,
                purpose: *purpose,
                result: listing_answer_view(*result),
            },
            Event::Message(msg) => EventView::Message(msg@),
            Event::Finished { side, result } => EventView::Finished {
                side: *side,
                result: answer_view(*result),
            },
            Event::DirectoryMade { result } => EventView::DirectoryMade {
                result: answer_view(*result),
            },
            Event::TransferDone { outcome, message } => EventView::TransferDone {
                outcome: *outcome,
                message: message@,
            },
            Event::Expanded { children } => EventView::Expanded { children: entries_view(children@) },
            Event::Watcher { events } => EventView::Watcher { events: change_views(events@) },
            Event::Tick => EventView::Tick,
        }
    }
}

} // verus!
