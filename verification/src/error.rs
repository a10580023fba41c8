//! The failures that reach the caller.

use vstd::prelude::*;

verus! {

/// Why listing or selecting a device failed.
#[derive(Debug, PartialEq, Eq)]
pub enum MonitorError {
    /// The audio host could not be asked for its devices. Holds the host's
    /// own account of the failure.
    HostUnavailable(String),
    /// No input device that the host lists answers to the identifier.
    DeviceNotFound,
    /// The host would not settle on a configuration or open the capture
    /// stream. Holds the host's own account of the failure.
    StreamOpenError(String),
}

/// A failure with its texts as character sequences.
pub enum Failure {
    HostUnavailable(Seq<char>),
    DeviceNotFound,
    StreamOpenError(Seq<char>),
}

impl View for MonitorError {
    type V = Failure;

    open spec fn view(&self) -> Failure {
        match self {
            MonitorError::HostUnavailable(text) => Failure::HostUnavailable(text@),
            MonitorError::DeviceNotFound => Failure::DeviceNotFound,
            MonitorError::StreamOpenError(text) => Failure::StreamOpenError(text@),
        }
    }
}

/// What the user is told when the device asked for is not there.
pub open spec fn not_found_text() -> Seq<char> {
    "指定された入力デバイスが見つかりません"@
}

impl Failure {
    /// The text shown to the user: the host's account where there is one.
    pub open spec fn text(self) -> Seq<char> {
        match self {
            Failure::HostUnavailable(text) => text,
            Failure::DeviceNotFound => not_found_text(),
            Failure::StreamOpenError(text) => text,
        }
    }
}

impl MonitorError {
    /// The text to show to the user.
    pub fn message(&self) -> (text: String)
        ensures
            text@ == self@.text(),
    {
        match self {
            MonitorError::HostUnavailable(text) => text.clone(),
            MonitorError::DeviceNotFound => "指定された入力デバイスが見つかりません".to_owned(),
            MonitorError::StreamOpenError(text) => text.clone(),
        }
    }
}

} // verus!
