//! The ways in which watching the focus can fail.

use vstd::prelude::*;
use vstd::string::StringExecFns;

verus! {

/// Why a monitor could not be built, or why one pull gave no window.
#[derive(Debug, PartialEq, Eq)]
pub enum MonitorError {
    /// The window manager does not publish the active window.
    NotSupported,
    /// The screen the connection was opened on is not among the server's screens.
    ScreenNotFound,
    /// The server answered the active-window query with an empty value list.
    EmptyActiveWindowReply,
    /// The name property of the focused window is not valid UTF-8.
    TitleNotUtf8,
    /// The class property of the focused window is not valid UTF-8.
    ClassNotUtf8,
    /// The class property holds fewer than two NUL-terminated fields.
    ClassFormat,
    /// No result is queued, but the producer is still running.
    ChannelEmpty,
    /// No result is queued, and the producer is gone.
    ChannelClosed,
    /// The connection to the X server failed; the text is the driver's account of it.
    Connection(String),
}

impl Clone for MonitorError {
    fn clone(&self) -> (copy: MonitorError)
        ensures
            copy == *self,
    {
        match self {
            MonitorError::NotSupported => MonitorError::NotSupported,
            MonitorError::ScreenNotFound => MonitorError::ScreenNotFound,
            MonitorError::EmptyActiveWindowReply => MonitorError::EmptyActiveWindowReply,
            MonitorError::TitleNotUtf8 => MonitorError::TitleNotUtf8,
            MonitorError::ClassNotUtf8 => MonitorError::ClassNotUtf8,
            MonitorError::ClassFormat => MonitorError::ClassFormat,
            MonitorError::ChannelEmpty => MonitorError::ChannelEmpty,
            MonitorError::ChannelClosed => MonitorError::ChannelClosed,
            MonitorError::Connection(detail) => MonitorError::Connection(detail.clone()),
        }
    }
}

impl MonitorError {
    /// True for the errors that end a monitor: a missing capability, a missing
    /// screen, a lost connection, a closed channel. The others concern one
    /// pull only, and the next pull may succeed.
    pub open spec fn is_fatal(self) -> bool {
        match self {
            MonitorError::NotSupported => true,
            MonitorError::ScreenNotFound => true,
            MonitorError::ChannelClosed => true,
            MonitorError::Connection(_) => true,
            _ => false,
        }
    }

    /// Whether the monitor is lost with this error.
    pub fn fatal(&self) -> (fatal: bool)
        ensures
            fatal == self.is_fatal(),
    {
        match self {
            MonitorError::NotSupported => true,
            MonitorError::ScreenNotFound => true,
            MonitorError::ChannelClosed => true,
            MonitorError::Connection(_) => true,
            _ => false,
        }
    }

    /// The text of the error's description.
    pub open spec fn message_text(self) -> Seq<char> {
        match self {
            MonitorError::NotSupported => "Not supported"@,
            MonitorError::ScreenNotFound => "screen was None"@,
            MonitorError::EmptyActiveWindowReply => "Active window reply was empty"@,
            MonitorError::TitleNotUtf8 => "The WM_NAME property is not valid UTF-8"@,
            MonitorError::ClassNotUtf8 => "The WM_CLASS property is not valid UTF-8"@,
            MonitorError::ClassFormat => "Unexpected WM_CLASS format"@,
            MonitorError::ChannelEmpty => "receiving on an empty channel"@,
            MonitorError::ChannelClosed => "receiving on a closed channel"@,
            MonitorError::Connection(detail) => detail@,
        }
    }

    /// A description of the error for a reader.
    pub fn message(&self) -> (text: String)
        ensures
            text@ == self.message_text(),
    {
        match self {
            MonitorError::NotSupported => String::from_str("Not supported"),
            MonitorError::ScreenNotFound => String::from_str("screen was None"),
            MonitorError::EmptyActiveWindowReply => String::from_str(
                "Active window reply was empty",
            ),
            MonitorError::TitleNotUtf8 => String::from_str(
                "The WM_NAME property is not valid UTF-8",
            ),
            MonitorError::ClassNotUtf8 => String::from_str(
                "The WM_CLASS property is not valid UTF-8",
            ),
            MonitorError::ClassFormat => String::from_str("Unexpected WM_CLASS format"),
            MonitorError::ChannelEmpty => String::from_str("receiving on an empty channel"),
            MonitorError::ChannelClosed => String::from_str("receiving on a closed channel"),
            MonitorError::Connection(detail) => detail.clone(),
        }
    }
}

} // verus!
