//! Lifecycle status records: what the supervisor reports to the host.

use vstd::prelude::*;
use crate::clock::unix_millis_now;

verus! {

/// The name of the event under which statuses reach the host's listeners.
pub const STATUS_EVENT: &'static str = "backend-status";

/// The lifecycle state that a status record announces.
#[derive(Clone, Copy, Debug, PartialEq, Eq, Structural)]
pub enum LifecycleState {
    Prepared,
    Running,
    Restarting,
    Error,
    Stopped,
}

impl LifecycleState {
    /// The name under which the state travels to the host.
    pub open spec fn name(self) -> Seq<char> {
        match self {
            LifecycleState::Prepared => "prepared"@,
            LifecycleState::Running => "running"@,
            LifecycleState::Restarting => "restarting"@,
            LifecycleState::Error => "error"@,
            LifecycleState::Stopped => "stopped"@,
        }
    }

    /// The name under which the state travels to the host.
    pub fn as_str(&self) -> (s: &'static str)
        ensures
            s@ == self.name(),
    {
        match self {
            LifecycleState::Prepared => "prepared",
            LifecycleState::Running => "running",
            LifecycleState::Restarting => "restarting",
            LifecycleState::Error => "error",
            LifecycleState::Stopped => "stopped",
        }
    }
}

/// A status that is due for publication: the state and its message, not yet
/// stamped with a time.
#[derive(Debug, PartialEq, Eq)]
pub struct StatusNote {
    pub state: LifecycleState,
    pub message: Option<String>,
}

/// The mathematical value of a [`StatusNote`].
pub struct StatusNoteView {
    pub state: LifecycleState,
    pub message: Option<Seq<char>>,
}

impl View for StatusNote {
    type V = StatusNoteView;

    open spec fn view(&self) -> StatusNoteView {
        StatusNoteView {
            state: self.state,
            message: match self.message {
                Some(m) => Some(m@),
                None => None,
            },
        }
    }
}

/// A published status: state, message and the time of publication in
/// milliseconds since the Unix epoch.
#[derive(Debug, PartialEq, Eq)]
pub struct BackendStatus {
    pub state: LifecycleState,
    pub message: Option<String>,
    pub timestamp: i64,
}

/// The mathematical value of a [`BackendStatus`].
pub struct BackendStatusView {
    pub state: LifecycleState,
    pub message: Option<Seq<char>>,
    pub timestamp: int,
}

impl View for BackendStatus {
    type V = BackendStatusView;

    open spec fn view(&self) -> BackendStatusView {
        BackendStatusView {
            state: self.state,
            message: match self.message {
                Some(m) => Some(m@),
                None => None,
            },
            timestamp: self.timestamp as int,
        }
    }
}

/// The record that publishes `note` at time `timestamp`.
pub open spec fn stamped(note: StatusNoteView, timestamp: int) -> BackendStatusView {
    BackendStatusView { state: note.state, message: note.message, timestamp }
}

impl BackendStatus {
    /// Stamps `note` with the given time.
    pub fn at(note: StatusNote, timestamp: i64) -> (status: BackendStatus)
        ensures
            status@ == stamped(note@, timestamp as int),
    {
        BackendStatus { state: note.state, message: note.message, timestamp }
    }

    /// Stamps `note` with the current time. The state and the message are
    /// those of the note; the timestamp is whatever the clock gives, never
    /// negative.
    pub fn now(note: StatusNote) -> (status: BackendStatus)
        ensures
            status@ == stamped(note@, status@.timestamp),
            status@.timestamp >= 0,
    {
        let timestamp: i64 = unix_millis_now();
        BackendStatus::at(note, timestamp)
    }
}

} // verus!
