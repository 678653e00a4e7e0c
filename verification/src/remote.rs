//! What an error of the remote side means for the activity.

use crate::pane::BrowseError;
use crate::transfer::model::FailureReason;
use vstd::prelude::*;

verus! {

/// The kinds of errors that the remote side reports.
#[derive(Clone, Copy, Debug, PartialEq, Eq, Structural)]
pub enum RemoteErrorKind {
    AlreadyConnected,
    AuthenticationFailed,
    BadAddress,
    ConnectionError,
    SslError,
    StatFailed,
    BadFile,
    DirectoryAlreadyExists,
    DirectoryNotEmpty,
    FileCreateDenied,
    CouldNotOpenFile,
    CouldNotRemoveFile,
    IoError,
    NoSuchFileOrDirectory,
    PexError,
    ProtocolError,
    NotConnected,
    UnsupportedFeature,
}

impl RemoteErrorKind {
    /// The error tells that the connection itself is gone.
    pub open spec fn connection_lost(self) -> bool {
        self is ConnectionError || self is NotConnected
    }

    /// The error rules the remote side out for good: trying again cannot help.
    pub open spec fn rules_out(self) -> bool {
        self is AuthenticationFailed || self is BadAddress || self is UnsupportedFeature
    }

    /// Why a transfer that met the error was given up.
    pub open spec fn reason(self) -> FailureReason {
        if self.connection_lost() {
            FailureReason::ConnectionLost
        } else {
            FailureReason::Remote
        }
    }

    /// Whether the error tells that the connection itself is gone.
    pub fn is_connection_lost(self) -> (lost: bool)
        ensures
            lost == self.connection_lost(),
    {
        match self {
            RemoteErrorKind::ConnectionError => true,
            RemoteErrorKind::NotConnected => true,
            _ => false,
        }
    }

    /// Whether the error rules the remote side out for good.
    pub fn is_fatal(self) -> (fatal: bool)
        ensures
            fatal == self.rules_out(),
    {
        match self {
            RemoteErrorKind::AuthenticationFailed => true,
            RemoteErrorKind::BadAddress => true,
            RemoteErrorKind::UnsupportedFeature => true,
            _ => false,
        }
    }

    /// Why a transfer that met the error was given up.
    pub fn failure_reason(self) -> (reason: FailureReason)
        ensures
            reason == self.reason(),
    {
        if self.is_connection_lost() {
            FailureReason::ConnectionLost
        } else {
            FailureReason::Remote
        }
    }

    /// Why a transfer was given up that met the error while the remote side
    /// did or did not answer any more: a side that no longer answers means a
    /// lost connection, whatever the error says.
    pub open spec fn reason_while(self, still_connected: bool) -> FailureReason {
        if still_connected {
            self.reason()
        } else {
            FailureReason::ConnectionLost
        }
    }

    /// Why a transfer was given up that met the error; `still_connected` tells
    /// whether the remote side answered afterwards.
    pub fn failure_reason_while(self, still_connected: bool) -> (reason: FailureReason)
        ensures
            reason == self.reason_while(still_connected),
    {
        if still_connected {
            self.failure_reason()
        } else {
            FailureReason::ConnectionLost
        }
    }

    /// Whether the error tells that a directory which was to be made is there
    /// already, which is as good as having made it.
    pub fn directory_is_there(self) -> (there: bool)
        ensures
            there == (self is DirectoryAlreadyExists),
    {
        match self {
            RemoteErrorKind::DirectoryAlreadyExists => true,
            _ => false,
        }
    }

    /// What a listing that met the error reports.
    pub fn browse_error(self) -> (error: BrowseError)
        ensures
            error == BrowseError::Remote,
    {
        BrowseError::Remote
    }
}

/// Why a copy was given up whose stream broke; `still_connected` tells whether
/// the remote side answered afterwards.
pub fn stream_failure(still_connected: bool) -> (reason: FailureReason)
    ensures
        reason == if still_connected {
            FailureReason::Remote
        } else {
            FailureReason::ConnectionLost
        },
{
    if still_connected {
        FailureReason::Remote
    } else {
        FailureReason::ConnectionLost
    }
}

/// An error that tells of a lost connection never rules the remote side out:
/// the activity connects again.
pub proof fn theorem_lost_connections_are_retried(kind: RemoteErrorKind)
    requires
        kind.connection_lost(),
    ensures
        !kind.rules_out(),
        kind.reason() == FailureReason::ConnectionLost,
{
}

} // verus!
