//! The messages that drive the activity, and the components they speak of.

use crate::sorting::FileSorting;
use vstd::prelude::*;

verus! {

/// The components of the user interface.
#[derive(Clone, Copy, Debug, PartialEq, Eq, Hash, Structural)]
pub enum Id {
    CopyPopup,
    DeletePopup,
    DisconnectPopup,
    ErrorPopup,
    ExecPopup,
    ExplorerFind,
    ExplorerLocal,
    ExplorerRemote,
    FatalPopup,
    FileInfoPopup,
    FindPopup,
    FooterBar,
    GlobalListener,
    GotoPopup,
    KeybindingsPopup,
    Log,
    MkdirPopup,
    NewfilePopup,
    OpenWithPopup,
    ProgressBarFull,
    ProgressBarPartial,
    QuitPopup,
    RenamePopup,
    ReplacePopup,
    ReplacingFilesListPopup,
    SaveAsPopup,
    SortingPopup,
    StatusBarLocal,
    StatusBarRemote,
    SymlinkPopup,
    SyncBrowsingMkdirPopup,
    WaitPopup,
    WatchedPathsList,
    WatcherPopup,
}

/// Answers of the user to a question that holds a follow-up action back.
#[derive(Clone, Copy, Debug, PartialEq, Eq, Structural)]
pub enum PendingActionMsg {
    /// Do not replace what exists at the destination.
    CloseReplacePopups,
    /// Do not make the directory that is missing across.
    CloseSyncBrowsingMkdirPopup,
    /// Make the directory that is missing across.
    MakePendingDirectory,
    /// Replace what exists at the destination.
    TransferPendingFile,
}

/// Requests to browse, to change files and to transfer them.
#[derive(Debug, PartialEq, Eq)]
pub enum TransferMsg {
    AbortTransfer,
    CopyFileTo(String),
    CreateSymlink(String),
    DeleteFile,
    EnterDirectory,
    ExecuteCmd(String),
    GoTo(String),
    GoToParentDirectory,
    GoToPreviousDirectory,
    Mkdir(String),
    NewFile(String),
    OpenFile,
    OpenFileWith(String),
    OpenTextFile,
    ReloadDir,
    RenameFile(String),
    SaveFileAs(String),
    SearchFile(String),
    ToggleWatch,
    ToggleWatchFor(usize),
    TransferFile,
}

/// The mathematical value of a [`TransferMsg`].
pub enum TransferMsgView {
    AbortTransfer,
    CopyFileTo(Seq<char>),
    CreateSymlink(Seq<char>),
    DeleteFile,
    EnterDirectory,
    ExecuteCmd(Seq<char>),
    GoTo(Seq<char>),
    GoToParentDirectory,
    GoToPreviousDirectory,
    Mkdir(Seq<char>),
    NewFile(Seq<char>),
    OpenFile,
    OpenFileWith(Seq<char>),
    OpenTextFile,
    ReloadDir,
    RenameFile(Seq<char>),
    SaveFileAs(Seq<char>),
    SearchFile(Seq<char>),
    ToggleWatch,
    ToggleWatchFor(usize),
    TransferFile,
}

impl View for TransferMsg {
    type V = TransferMsgView;

    open spec fn view(&self) -> TransferMsgView {
        match self {
            TransferMsg::AbortTransfer => TransferMsgView::AbortTransfer,
            TransferMsg::CopyFileTo(s) => TransferMsgView::CopyFileTo(s@),
            TransferMsg::CreateSymlink(s) => TransferMsgView::CreateSymlink(s@),
            TransferMsg::DeleteFile => TransferMsgView::DeleteFile,
            TransferMsg::EnterDirectory => TransferMsgView::EnterDirectory,
            TransferMsg::ExecuteCmd(s) => TransferMsgView::ExecuteCmd(s@),
            TransferMsg::GoTo(s) => TransferMsgView::GoTo(s@),
            TransferMsg::GoToParentDirectory => TransferMsgView::GoToParentDirectory,
            TransferMsg::GoToPreviousDirectory => TransferMsgView::GoToPreviousDirectory,
            TransferMsg::Mkdir(s) => TransferMsgView::Mkdir(s@),
            TransferMsg::NewFile(s) => TransferMsgView::NewFile(s@),
            TransferMsg::OpenFile => TransferMsgView::OpenFile,
            TransferMsg::OpenFileWith(s) => TransferMsgView::OpenFileWith(s@),
            TransferMsg::OpenTextFile => TransferMsgView::OpenTextFile,
            TransferMsg::ReloadDir => TransferMsgView::ReloadDir,
            TransferMsg::RenameFile(s) => TransferMsgView::RenameFile(s@),
            TransferMsg::SaveFileAs(s) => TransferMsgView::SaveFileAs(s@),
            TransferMsg::SearchFile(s) => TransferMsgView::SearchFile(s@),
            TransferMsg::ToggleWatch => TransferMsgView::ToggleWatch,
            TransferMsg::ToggleWatchFor(i) => TransferMsgView::ToggleWatchFor(*i),
            TransferMsg::TransferFile => TransferMsgView::TransferFile,
        }
    }
}

/// Requests that change what the user interface shows.
#[derive(Clone, Copy, Debug, PartialEq, Eq, Structural)]
pub enum UiMsg {
    ChangeFileSorting(FileSorting),
    ChangeTransferWindow,
    CloseCopyPopup,
    CloseDeletePopup,
    CloseDisconnectPopup,
    CloseErrorPopup,
    CloseExecPopup,
    CloseFatalPopup,
    CloseFileInfoPopup,
    CloseFileSortingPopup,
    CloseFindExplorer,
    CloseFindPopup,
    CloseGotoPopup,
    CloseKeybindingsPopup,
    CloseMkdirPopup,
    CloseNewFilePopup,
    CloseOpenWithPopup,
    CloseQuitPopup,
    CloseRenamePopup,
    CloseSaveAsPopup,
    CloseSymlinkPopup,
    CloseWatchedPathsList,
    CloseWatcherPopup,
    Disconnect,
    LogBackTabbed,
    Quit,
    ReplacePopupTabbed,
    ShowCopyPopup,
    ShowDeletePopup,
    ShowDisconnectPopup,
    ShowExecPopup,
    ShowFileInfoPopup,
    ShowFileSortingPopup,
    ShowFindPopup,
    ShowGotoPopup,
    ShowKeybindingsPopup,
    ShowLogPanel,
    ShowMkdirPopup,
    ShowNewFilePopup,
    ShowOpenWithPopup,
    ShowQuitPopup,
    ShowRenamePopup,
    ShowSaveAsPopup,
    ShowSymlinkPopup,
    ShowWatchedPathsList,
    ShowWatcherPopup,
    ToggleHiddenFiles,
    ToggleSyncBrowsing,
    WindowResized,
}

/// A message to the activity. The three kinds are handled apart from each
/// other.
#[derive(Debug, PartialEq, Eq)]
pub enum Msg {
    PendingAction(PendingActionMsg),
    Transfer(TransferMsg),
    Ui(UiMsg),
    /// Nothing happened.
    Nothing,
}

/// The mathematical value of a [`Msg`].
pub enum MsgView {
    PendingAction(PendingActionMsg),
    Transfer(TransferMsgView),
    Ui(UiMsg),
    Nothing,
}

impl View for Msg {
    type V = MsgView;

    open spec fn view(&self) -> MsgView {
        match self {
            Msg::PendingAction(m) => MsgView::PendingAction(*m),
            Msg::Transfer(m) => MsgView::Transfer(m@),
            Msg::Ui(m) => MsgView::Ui(*m),
            Msg::Nothing => MsgView::Nothing,
        }
    }
}

/// The component that a message brings up.
pub open spec fn shown_by(msg: UiMsg) -> Option<Id> {
    match msg {
        UiMsg::ShowCopyPopup => Some(Id::CopyPopup),
        UiMsg::ShowDeletePopup => Some(Id::DeletePopup),
        UiMsg::ShowDisconnectPopup => Some(Id::DisconnectPopup),
        UiMsg::ShowExecPopup => Some(Id::ExecPopup),
        UiMsg::ShowFileInfoPopup => Some(Id::FileInfoPopup),
        UiMsg::ShowFileSortingPopup => Some(Id::SortingPopup),
        UiMsg::ShowFindPopup => Some(Id::FindPopup),
        UiMsg::ShowGotoPopup => Some(Id::GotoPopup),
        UiMsg::ShowKeybindingsPopup => Some(Id::KeybindingsPopup),
        UiMsg::ShowLogPanel => Some(Id::Log),
        UiMsg::ShowMkdirPopup => Some(Id::MkdirPopup),
        UiMsg::ShowNewFilePopup => Some(Id::NewfilePopup),
        UiMsg::ShowOpenWithPopup => Some(Id::OpenWithPopup),
        UiMsg::ShowQuitPopup => Some(Id::QuitPopup),
        UiMsg::ShowRenamePopup => Some(Id::RenamePopup),
        UiMsg::ShowSaveAsPopup => Some(Id::SaveAsPopup),
        UiMsg::ShowSymlinkPopup => Some(Id::SymlinkPopup),
        UiMsg::ShowWatchedPathsList => Some(Id::WatchedPathsList),
        UiMsg::ShowWatcherPopup => Some(Id::WatcherPopup),
        _ => None,
    }
}

/// The component that a message takes away.
pub open spec fn closed_by(msg: UiMsg) -> Option<Id> {
    match msg {
        UiMsg::CloseCopyPopup => Some(Id::CopyPopup),
        UiMsg::CloseDeletePopup => Some(Id::DeletePopup),
        UiMsg::CloseDisconnectPopup => Some(Id::DisconnectPopup),
        UiMsg::CloseErrorPopup => Some(Id::ErrorPopup),
        UiMsg::CloseExecPopup => Some(Id::ExecPopup),
        UiMsg::CloseFatalPopup => Some(Id::FatalPopup),
        UiMsg::CloseFileInfoPopup => Some(Id::FileInfoPopup),
        UiMsg::CloseFileSortingPopup => Some(Id::SortingPopup),
        UiMsg::CloseFindExplorer => Some(Id::ExplorerFind),
        UiMsg::CloseFindPopup => Some(Id::FindPopup),
        UiMsg::CloseGotoPopup => Some(Id::GotoPopup),
        UiMsg::CloseKeybindingsPopup => Some(Id::KeybindingsPopup),
        UiMsg::CloseMkdirPopup => Some(Id::MkdirPopup),
        UiMsg::CloseNewFilePopup => Some(Id::NewfilePopup),
        UiMsg::CloseOpenWithPopup => Some(Id::OpenWithPopup),
        UiMsg::CloseQuitPopup => Some(Id::QuitPopup),
        UiMsg::CloseRenamePopup => Some(Id::RenamePopup),
        UiMsg::CloseSaveAsPopup => Some(Id::SaveAsPopup),
        UiMsg::CloseSymlinkPopup => Some(Id::SymlinkPopup),
        UiMsg::CloseWatchedPathsList => Some(Id::WatchedPathsList),
        UiMsg::CloseWatcherPopup => Some(Id::WatcherPopup),
        UiMsg::Disconnect => Some(Id::DisconnectPopup),
        UiMsg::Quit => Some(Id::QuitPopup),
        UiMsg::LogBackTabbed => Some(Id::Log),
        _ => None,
    }
}

/// The component that a message brings up.
pub fn component_shown(msg: UiMsg) -> (id: Option<Id>)
    ensures
        id == shown_by(msg),
{
    match msg {
        UiMsg::ShowCopyPopup => Some(Id::CopyPopup),
        UiMsg::ShowDeletePopup => Some(Id::DeletePopup),
        UiMsg::ShowDisconnectPopup => Some(Id::DisconnectPopup),
        UiMsg::ShowExecPopup => Some(Id::ExecPopup),
        UiMsg::ShowFileInfoPopup => Some(Id::FileInfoPopup),
        UiMsg::ShowFileSortingPopup => Some(Id::SortingPopup),
        UiMsg::ShowFindPopup => Some(Id::FindPopup),
        UiMsg::ShowGotoPopup => Some(Id::GotoPopup),
        UiMsg::ShowKeybindingsPopup => Some(Id::KeybindingsPopup),
        UiMsg::ShowLogPanel => Some(Id::Log),
        UiMsg::ShowMkdirPopup => Some(Id::MkdirPopup),
        UiMsg::ShowNewFilePopup => Some(Id::NewfilePopup),
        UiMsg::ShowOpenWithPopup => Some(Id::OpenWithPopup),
        UiMsg::ShowQuitPopup => Some(Id::QuitPopup),
        UiMsg::ShowRenamePopup => Some(Id::RenamePopup),
        UiMsg::ShowSaveAsPopup => Some(Id::SaveAsPopup),
        UiMsg::ShowSymlinkPopup => Some(Id::SymlinkPopup),
        UiMsg::ShowWatchedPathsList => Some(Id::WatchedPathsList),
        UiMsg::ShowWatcherPopup => Some(Id::WatcherPopup),
        _ => None,
    }
}

/// The component that a message takes away.
pub fn component_closed(msg: UiMsg) -> (id: Option<Id>)
    ensures
        id == closed_by(msg),
{
    match msg {
        UiMsg::CloseCopyPopup => Some(Id::CopyPopup),
        UiMsg::CloseDeletePopup => Some(Id::DeletePopup),
        UiMsg::CloseDisconnectPopup => Some(Id::DisconnectPopup),
        UiMsg::CloseErrorPopup => Some(Id::ErrorPopup),
        UiMsg::CloseExecPopup => Some(Id::ExecPopup),
        UiMsg::CloseFatalPopup => Some(Id::FatalPopup),
        UiMsg::CloseFileInfoPopup => Some(Id::FileInfoPopup),
        UiMsg::CloseFileSortingPopup => Some(Id::SortingPopup),
        UiMsg::CloseFindExplorer => Some(Id::ExplorerFind),
        UiMsg::CloseFindPopup => Some(Id::FindPopup),
        UiMsg::CloseGotoPopup => Some(Id::GotoPopup),
        UiMsg::CloseKeybindingsPopup => Some(Id::KeybindingsPopup),
        UiMsg::CloseMkdirPopup => Some(Id::MkdirPopup),
        UiMsg::CloseNewFilePopup => Some(Id::NewfilePopup),
        UiMsg::CloseOpenWithPopup => Some(Id::OpenWithPopup),
        UiMsg::CloseQuitPopup => Some(Id::QuitPopup),
        UiMsg::CloseRenamePopup => Some(Id::RenamePopup),
        UiMsg::CloseSaveAsPopup => Some(Id::SaveAsPopup),
        UiMsg::CloseSymlinkPopup => Some(Id::SymlinkPopup),
        UiMsg::CloseWatchedPathsList => Some(Id::WatchedPathsList),
        UiMsg::CloseWatcherPopup => Some(Id::WatcherPopup),
        UiMsg::Disconnect => Some(Id::DisconnectPopup),
        UiMsg::Quit => Some(Id::QuitPopup),
        UiMsg::LogBackTabbed => Some(Id::Log),
        _ => None,
    }
}

} // verus!
